//! The configuration of a checker.

use std::collections::BTreeMap;
use std::time::Duration;
use vstd::prelude::*;

verus! {

/// Monitors that watch a solution while it runs.
#[derive(Debug, Clone, Copy, PartialEq, Eq)]
pub enum MonitorType {
    /// Stops waiting for the solution once the limit is reached.
    Timeout { limit: Duration },
    /// Asks for the footprint of the run to be reported. Nothing is
    /// enforced by it.
    TimeFootprint,
}

/// How the outcome of a test is reported.
#[derive(Debug, Clone, Copy, PartialEq, Eq, Structural)]
pub enum OutputType {
    /// Every test that passes is worth `per_test` points, every other none.
    Scored { per_test: usize },
    /// A test passes or fails.
    Binary,
}

/// What a checker works with: the monitors, the kind of outcome, and for
/// every test, by its number, the input and the reference.
#[derive(Debug)]
pub struct CheckerConfig<I, O> {
    pub monitors: Vec<MonitorType>,
    pub output_type: OutputType,
    pub in_refs: BTreeMap<usize, (I, O)>,
}

impl<I, O> CheckerConfig<I, O> {
    /// The numbers of the tests.
    pub open spec fn test_ids(self) -> Set<usize> {
        self.in_refs@.dom()
    }
}

/// Comparison of what a test produced with what it should have produced.
/// `x.ceq(y, ..)` is not `x == y`: it may look at what `x` and `y` stand for,
/// such as the contents of two files.
pub trait PartialEq<Rhs = Self> {
    /// Whether a comparison of `self` with `other` can find them equal or
    /// not, as `equal` says, and show them as `shown_self` and
    /// `shown_other`. A comparison that looks at nothing but the two values
    /// admits one answer; one that reads what they stand for admits
    /// whatever it may find there, which is what is admitted where nothing
    /// else is said.
    open spec fn compares(
        &self,
        other: &Rhs,
        equal: bool,
        shown_self: Seq<char>,
        shown_other: Seq<char>,
    ) -> bool {
        true
    }

    /// Tells whether `self` and `other` are equal, and appends to
    /// `self_inner` and `other_inner` what stands for each of them in a
    /// message. What cannot be shown is shown as nothing.
    fn ceq(&self, other: &Rhs, self_inner: &mut String, other_inner: &mut String) -> (equal: bool)
        ensures
            exists|shown_self: Seq<char>, shown_other: Seq<char>|
                {
                    &&& final(self_inner)@ == old(self_inner)@ + shown_self
                    &&& final(other_inner)@ == old(other_inner)@ + shown_other
                    &&& self.compares(other, equal, shown_self, shown_other)
                },
    ;
}

} // verus!

//! Comparison of what two files held, byte for byte.

use crate::checker::Comparison;
use vstd::prelude::*;
use vstd::utf8::{decode_utf8, valid_utf8};

verus! {

/// What a file held, for one that could be opened.
#[derive(Debug, Clone, PartialEq, Eq)]
pub enum Artifact {
    /// The file could not be opened.
    Unreadable,
    /// The file's bytes.
    Contents(Vec<u8>),
}

/// What a comparison of two artifacts yields.
pub struct Compared {
    pub equal: bool,
    pub produced: Seq<char>,
    pub reference: Seq<char>,
}

/// The comparison of what a test produced with its reference.
///
/// The two are equal where both could be opened, both are text in UTF-8 and
/// their bytes are the same. Each side is shown as its text. Where one of
/// them could not be opened, or the reference is no text, nothing is shown;
/// where only what was produced is no text, the reference alone is shown.
pub open spec fn compared(produced: Artifact, reference: Artifact) -> Compared {
    match (produced, reference) {
        (Artifact::Contents(p), Artifact::Contents(r)) => {
            if !valid_utf8(r@) {
                Compared { equal: false, produced: Seq::empty(), reference: Seq::empty() }
            } else if !valid_utf8(p@) {
                Compared { equal: false, produced: Seq::empty(), reference: decode_utf8(r@) }
            } else {
                Compared { equal: p@ == r@, produced: decode_utf8(p@), reference: decode_utf8(r@) }
            }
        },
        _ => Compared { equal: false, produced: Seq::empty(), reference: Seq::empty() },
    }
}

/// Whether `comparison` is what comparing `produced` with `reference` yields.
pub open spec fn is_comparison_of(comparison: Comparison, produced: Artifact, reference: Artifact) -> bool {
    &&& comparison.equal == compared(produced, reference).equal
    &&& comparison.produced@ == compared(produced, reference).produced
    &&& comparison.reference@ == compared(produced, reference).reference
}

/// Reads `bytes` as text with `String::from_utf8`, which accepts exactly
/// the byte sequences that are valid UTF-8 and gives the characters that
/// they encode.
#[verifier::external_body]
fn text_of(bytes: &Vec<u8>) -> (text: Option<String>)
    ensures
        text is Some == valid_utf8(bytes@),
        text matches Some(t) ==> t@ == decode_utf8(bytes@),
{
    String::from_utf8(bytes.clone()).ok()
}

/// Tells whether `a` and `b` hold the same bytes.
pub fn same_bytes(a: &Vec<u8>, b: &Vec<u8>) -> (same: bool)
    ensures
        same == (a@ == b@),
{
    if a.len() != b.len() {
        return false;
    }
    let mut i: usize = 0;
    while i < a.len()
        invariant
            a.len() == b.len(),
            i <= a.len(),
            forall|j: int| 0 <= j < i ==> a@[j] == b@[j],
        decreases a.len() - i,
    {
        if a[i] != b[i] {
            return false;
        }
        i += 1;
    }
    assert(a@ =~= b@);
    true
}

/// Compares what a test produced with its reference.
pub fn compare(produced: &Artifact, reference: &Artifact) -> (comparison: Comparison)
    ensures
        is_comparison_of(comparison, *produced, *reference),
{
    let mut shown_produced = String::new();
    let mut shown_reference = String::new();
    let equal = crate::checker::config::PartialEq::ceq(
        produced,
        reference,
        &mut shown_produced,
        &mut shown_reference,
    );
    assert(shown_produced@ =~= compared(*produced, *reference).produced);
    assert(shown_reference@ =~= compared(*produced, *reference).reference);
    Comparison { equal, produced: shown_produced, reference: shown_reference }
}

impl crate::checker::config::PartialEq<Artifact> for Artifact {
    /// The one answer of the comparison: what `compared` yields.
    open spec fn compares(
        &self,
        other: &Artifact,
        equal: bool,
        shown_self: Seq<char>,
        shown_other: Seq<char>,
    ) -> bool {
        &&& equal == compared(*self, *other).equal
        &&& shown_self == compared(*self, *other).produced
        &&& shown_other == compared(*self, *other).reference
    }

    /// Compares byte for byte, and appends to each of the two texts what
    /// `compared` shows of that side.
    fn ceq(&self, other: &Artifact, self_inner: &mut String, other_inner: &mut String) -> (equal:
        bool)
        ensures
            equal == compared(*self, *other).equal,
            final(self_inner)@ == old(self_inner)@ + compared(*self, *other).produced,
            final(other_inner)@ == old(other_inner)@ + compared(*self, *other).reference,
    {
        proof {
            assert(self_inner@ + Seq::<char>::empty() =~= self_inner@);
            assert(other_inner@ + Seq::<char>::empty() =~= other_inner@);
            assert(self.compares(
                other,
                compared(*self, *other).equal,
                compared(*self, *other).produced,
                compared(*self, *other).reference,
            ));
        }
        let produced = match self {
            Artifact::Contents(bytes) => bytes,
            Artifact::Unreadable => {
                return false;
            },
        };
        let reference = match other {
            Artifact::Contents(bytes) => bytes,
            Artifact::Unreadable => {
                return false;
            },
        };
        let equal = same_bytes(produced, reference);
        match text_of(reference) {
            Some(text) => {
                other_inner.append(text.as_str());
            },
            None => {
                return false;
            },
        }
        match text_of(produced) {
            Some(text) => {
                self_inner.append(text.as_str());
            },
            None => {
                return false;
            },
        }
        equal
    }
}

/// Comparing the same two artifacts again yields the same verdict and the
/// same two texts.
pub proof fn lemma_compare_idempotent(
    produced: Artifact,
    reference: Artifact,
    first: Comparison,
    second: Comparison,
)
    requires
        is_comparison_of(first, produced, reference),
        is_comparison_of(second, produced, reference),
    ensures
        first.equal == second.equal,
        first.produced@ == second.produced@,
        first.reference@ == second.reference@,
{
}

} // verus!

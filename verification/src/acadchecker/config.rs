//! What a run of the whole checker is given, and what it gives back.

use crate::checker::{CheckerConfig, TestOutput, TestOutputView};
use crate::language::gcc::{compilation, Gcc};
use crate::language::make::{make_invocation, Makefile};
use crate::language::python::{interpret_command, Python};
use crate::language::{Error, Invocation, InvocationView, LanguageProcessor};
use crate::solution::{Solution, Source};
use crate::text::{opt_text, texts};
use std::collections::BTreeMap;
use vstd::prelude::*;

verus! {

/// The result of a run: one error that kept the tests from being run, or
/// the outcome of every test by its number.
#[derive(Debug, Clone, PartialEq, Eq)]
pub enum Output {
    /// The error that arose before the tests could be run.
    Error(String),
    /// The outcomes of the tests.
    Tests(BTreeMap<usize, TestOutput>),
}

/// An `Output` with its texts as sequences of characters.
pub enum OutputView {
    Error(Seq<char>),
    Tests(Map<usize, TestOutputView>),
}

impl View for Output {
    type V = OutputView;

    open spec fn view(&self) -> OutputView {
        match self {
            Output::Error(message) => OutputView::Error(message@),
            Output::Tests(outcomes) => OutputView::Tests(
                Map::new(|id: usize| outcomes@.contains_key(id), |id: usize| outcomes@[id]@),
            ),
        }
    }
}

/// The language processors that a configuration can name, each with what
/// it is called with.
#[derive(Debug, Clone, PartialEq, Eq)]
pub enum SupportedProcessor {
    Gcc { gcc: Gcc, flags: Vec<String>, executable: String },
    Python { python: Python, flags: Vec<String> },
    Makefile { makefile: Makefile },
}

impl SupportedProcessor {
    /// What the processor asks for when it is to run the solution at
    /// `source`: GCC a compilation into its executable, Python the
    /// interpreter's command, a makefile its rules.
    pub open spec fn spec_invocation(self, source: Source) -> InvocationView {
        match self {
            SupportedProcessor::Gcc { gcc, flags, executable } => InvocationView::Build(
                compilation(gcc.language, texts(flags@), source, executable@),
            ),
            SupportedProcessor::Python { python, flags } => InvocationView::Ready(
                interpret_command(python.spec_version(), texts(flags@), source),
            ),
            SupportedProcessor::Makefile { makefile } => make_invocation(
                makefile.path@,
                opt_text(makefile.build),
                makefile.run@,
            ),
        }
    }

    /// Asks the processor what has to be done to run the solution at
    /// `source`.
    pub fn invocation(self, source: Source) -> (result: Result<Invocation, Error>)
        ensures
            result matches Ok(invocation) && invocation@ == self.spec_invocation(source),
    {
        match self {
            SupportedProcessor::Gcc { gcc, flags, executable } => {
                let solution = Solution::new(gcc, source);
                solution.processor.run(Some(flags), solution.source, Some(executable))
            },
            SupportedProcessor::Python { python, flags } => {
                let solution = Solution::new(python, source);
                solution.processor.run(Some(flags), solution.source, None)
            },
            SupportedProcessor::Makefile { makefile } => {
                let solution = Solution::new(makefile, source);
                LanguageProcessor::run(&solution.processor, None, solution.source, None)
            },
        }
    }
}

/// The user and the group that the solution is run as.
#[derive(Debug, Clone, PartialEq, Eq)]
pub struct Security {
    pub user: String,
    pub group: String,
}

/// All that a run is given.
#[derive(Debug)]
pub struct Config<I, O> {
    /// The tests and how they are judged.
    pub checker: CheckerConfig<I, O>,
    /// The language processor and what it is called with.
    pub processor: SupportedProcessor,
    /// Where the solution is kept.
    pub solution: Source,
    /// The directory that the outputs of the tests are written to.
    pub out_dir: String,
    /// The identity that the solution runs under, where it is not that of
    /// the checker.
    pub security: Option<Security>,
}

} // verus!

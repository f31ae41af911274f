//! The checker: it hands the tests to a runner and decides the outcome of
//! every test from what the runner brought back.

pub mod acad;
pub mod artifact;
pub mod config;

pub use config::{CheckerConfig, MonitorType, OutputType};

use crate::language;
use vstd::prelude::*;

verus! {

/// Errors of running a solution on a test.
#[derive(Debug, Clone, PartialEq, Eq)]
pub enum Error {
    /// The language processor failed.
    RunError(language::Error),
    /// The test could not be run to its end.
    TestError(String),
    /// An output of one kind was expected and one of another kind found.
    UnsupportedOutputError(String, String),
    /// The output could not be compared with the reference.
    CompareError(String),
}

impl Error {
    /// The error as one line of text. An unsupported output is described by
    /// the kind that was expected, which stands in both places of the
    /// sentence.
    pub open spec fn text(self) -> Seq<char> {
        match self {
            Error::RunError(error) => "Running solution failed: "@ + error@.text(),
            Error::TestError(detail) => "Running test failed: "@ + detail@,
            Error::UnsupportedOutputError(expected, _) => "Unsupported output. Expected "@
                + expected@ + ", but found: "@ + expected@,
            Error::CompareError(detail) => "Comparing output and reference failed with: "@
                + detail@,
        }
    }

    /// The error as one line of text.
    pub fn to_string(&self) -> (text: String)
        ensures
            text@ == self.text(),
    {
        match self {
            Error::RunError(error) => {
                let inner = error.to_string();
                "Running solution failed: ".to_string().concat(inner.as_str())
            },
            Error::TestError(detail) => "Running test failed: ".to_string().concat(detail.as_str()),
            Error::UnsupportedOutputError(expected, _) => {
                "Unsupported output. Expected ".to_string().concat(expected.as_str()).concat(
                    ", but found: ",
                ).concat(expected.as_str())
            },
            Error::CompareError(detail) => "Comparing output and reference failed with: ".to_string().concat(
                detail.as_str(),
            ),
        }
    }
}

impl From<language::Error> for Error {
    fn from(error: language::Error) -> (converted: Self) {
        Error::RunError(error)
    }
}

impl vstd::std_specs::convert::FromSpecImpl<language::Error> for Error {
    open spec fn obeys_from_spec() -> bool {
        true
    }

    open spec fn from_spec(error: language::Error) -> Self {
        Error::RunError(error)
    }
}

/// The outcome of one test.
#[derive(Debug, Clone, PartialEq, Eq)]
pub enum TestOutput {
    /// The test passed.
    Passed,
    /// The test failed; the text says how.
    Failed(String),
    /// The test was given `score` points; the text, where there is one,
    /// says why it was given none.
    Score { score: usize, message: Option<String> },
}

/// A `TestOutput` with its texts as sequences of characters.
pub enum TestOutputView {
    Passed,
    Failed(Seq<char>),
    Score { score: usize, message: Option<Seq<char>> },
}

impl View for TestOutput {
    type V = TestOutputView;

    open spec fn view(&self) -> TestOutputView {
        match self {
            TestOutput::Passed => TestOutputView::Passed,
            TestOutput::Failed(message) => TestOutputView::Failed(message@),
            TestOutput::Score { score, message } => TestOutputView::Score {
                score: *score,
                message: match message {
                    Some(m) => Some(m@),
                    None => None,
                },
            },
        }
    }
}

/// What a comparison found: whether the two sides are equal, and what
/// stands for each of them in a message.
#[derive(Debug, Clone, PartialEq, Eq)]
pub struct Comparison {
    pub equal: bool,
    pub produced: String,
    pub reference: String,
}

/// The outcome of a test that did what was expected of it.
pub open spec fn passed(output_type: OutputType) -> TestOutputView {
    match output_type {
        OutputType::Scored { per_test } => TestOutputView::Score { score: per_test, message: None },
        OutputType::Binary => TestOutputView::Passed,
    }
}

/// The outcome of a test that did not, with the reason.
pub open spec fn failed(output_type: OutputType, diagnostic: Seq<char>) -> TestOutputView {
    match output_type {
        OutputType::Scored { per_test } => TestOutputView::Score {
            score: 0,
            message: Some(diagnostic),
        },
        OutputType::Binary => TestOutputView::Failed(diagnostic),
    }
}

/// What is said of a test whose run ended in an error with the text `error`.
pub open spec fn execution_failed(error: Seq<char>) -> Seq<char> {
    "Execution failed: "@ + error
}

/// What is said of a test that produced something else than the reference.
pub open spec fn mismatch(reference: Seq<char>, produced: Seq<char>) -> Seq<char> {
    "Expected: "@ + reference + "\nBut got: "@ + produced + "\n"@
}

/// The outcome of a test whose run ended in an error with the text `error`.
pub open spec fn outcome_of_error(output_type: OutputType, error: Seq<char>) -> TestOutputView {
    failed(output_type, execution_failed(error))
}

/// The outcome of a test whose output was compared with the reference.
pub open spec fn outcome_of_comparison(
    output_type: OutputType,
    equal: bool,
    produced: Seq<char>,
    reference: Seq<char>,
) -> TestOutputView {
    if equal {
        passed(output_type)
    } else {
        failed(output_type, mismatch(reference, produced))
    }
}

impl TestOutput {
    /// The outcome of a test that failed for the reason `diagnostic`.
    fn failing(output_type: &OutputType, diagnostic: String) -> (outcome: TestOutput)
        ensures
            outcome@ == failed(*output_type, diagnostic@),
    {
        match output_type {
            OutputType::Scored { per_test: _ } => TestOutput::Score {
                score: 0,
                message: Some(diagnostic),
            },
            OutputType::Binary => TestOutput::Failed(diagnostic),
        }
    }

    /// The outcome of a test whose run ended in `error`: a failure, or no
    /// points, with the error as the reason.
    pub fn from_error(output_type: &OutputType, error: &Error) -> (outcome: TestOutput)
        ensures
            outcome@ == outcome_of_error(*output_type, error.text()),
    {
        let text = error.to_string();
        TestOutput::failing(output_type, "Execution failed: ".to_string().concat(text.as_str()))
    }

    /// The outcome of a test whose output was compared with the reference:
    /// passed, or all the points of a test, where they are equal; a failure,
    /// or no points, where they are not, with both sides named in the reason.
    pub fn from_comparison(output_type: &OutputType, comparison: &Comparison) -> (outcome:
        TestOutput)
        ensures
            outcome@ == outcome_of_comparison(
                *output_type,
                comparison.equal,
                comparison.produced@,
                comparison.reference@,
            ),
    {
        if comparison.equal {
            match output_type {
                OutputType::Scored { per_test } => TestOutput::Score {
                    score: *per_test,
                    message: None,
                },
                OutputType::Binary => TestOutput::Passed,
            }
        } else {
            let diagnostic = "Expected: ".to_string().concat(comparison.reference.as_str()).concat(
                "\nBut got: ",
            ).concat(comparison.produced.as_str()).concat("\n");
            TestOutput::failing(output_type, diagnostic)
        }
    }
}

/// Where points are given, a test that passes gets the points of a test,
/// as they were configured and without a message, and a test that fails,
/// by its output or by an error of its run, gets none, with the reason as
/// the message.
pub proof fn lemma_scored_outcomes(
    per_test: usize,
    produced: Seq<char>,
    reference: Seq<char>,
    error: Seq<char>,
)
    ensures
        outcome_of_comparison(OutputType::Scored { per_test }, true, produced, reference)
            == (TestOutputView::Score { score: per_test, message: None }),
        outcome_of_comparison(OutputType::Scored { per_test }, false, produced, reference)
            == (TestOutputView::Score {
            score: 0,
            message: Some(mismatch(reference, produced)),
        }),
        outcome_of_error(OutputType::Scored { per_test }, error) == (TestOutputView::Score {
            score: 0,
            message: Some(execution_failed(error)),
        }),
{
}

/// Where a test passes or fails, it passes if its output equals the
/// reference, and fails, with the reason, if the output differs or the run
/// ended in an error.
pub proof fn lemma_binary_outcomes(produced: Seq<char>, reference: Seq<char>, error: Seq<char>)
    ensures
        outcome_of_comparison(OutputType::Binary, true, produced, reference)
            == TestOutputView::Passed,
        outcome_of_comparison(OutputType::Binary, false, produced, reference)
            == TestOutputView::Failed(mismatch(reference, produced)),
        outcome_of_error(OutputType::Binary, error) == TestOutputView::Failed(
            execution_failed(error),
        ),
{
}

} // verus!

//! Language processors: what has to be run to build a solution, and the
//! command that runs it afterwards.

pub mod gcc;
pub mod make;
pub mod python;

use crate::solution::Source;
use crate::text::{single, texts};
use vstd::prelude::*;

verus! {

/// Errors of a language processor.
#[derive(Debug, Clone, PartialEq, Eq)]
pub enum Error {
    /// Compiling failed; the text says how.
    CompilationFailed(String),
    /// The build rule of a makefile failed; the text says how.
    MakefileBuildFailed(String),
}

/// An `Error` with its detail as a sequence of characters.
pub enum ErrorView {
    CompilationFailed(Seq<char>),
    MakefileBuildFailed(Seq<char>),
}

impl View for Error {
    type V = ErrorView;

    open spec fn view(&self) -> ErrorView {
        match self {
            Error::CompilationFailed(detail) => ErrorView::CompilationFailed(detail@),
            Error::MakefileBuildFailed(detail) => ErrorView::MakefileBuildFailed(detail@),
        }
    }
}

impl ErrorView {
    /// The error as one line of text.
    pub open spec fn text(self) -> Seq<char> {
        match self {
            ErrorView::CompilationFailed(detail) => "Compilation failed: "@ + detail,
            ErrorView::MakefileBuildFailed(detail) => "Make build failed: "@ + detail,
        }
    }
}

impl Error {
    /// The error as one line of text.
    pub fn to_string(&self) -> (text: String)
        ensures
            text@ == self@.text(),
    {
        match self {
            Error::CompilationFailed(detail) => "Compilation failed: ".to_string().concat(
                detail.as_str(),
            ),
            Error::MakefileBuildFailed(detail) => "Make build failed: ".to_string().concat(
                detail.as_str(),
            ),
        }
    }
}

/// What became of a build command, as the one who ran it reports it.
#[derive(Debug, Clone, PartialEq, Eq)]
pub enum BuildReport {
    /// The command could not be started; the text says why.
    NotStarted(String),
    /// The command ran to its end. `status` is its exit status as text, and
    /// `canonical` the canonical path of the executable it was to write,
    /// where that path could be resolved.
    Exited { success: bool, status: String, canonical: Option<String> },
}

/// The kind of a build step, which decides how its failure is reported.
#[derive(Debug, Clone, Copy, PartialEq, Eq, Structural)]
pub enum BuildKind {
    /// A compiler writes an executable.
    Compilation,
    /// The build rule of a makefile is made.
    MakeRule,
}

/// A build that has to be run before the solution can be.
#[derive(Debug, Clone, PartialEq, Eq)]
pub struct BuildStep {
    /// The command that builds.
    pub command: Vec<String>,
    /// The command that runs what was built.
    pub product: Vec<String>,
    /// How a failure is reported.
    pub kind: BuildKind,
}

/// What a language processor asks for.
#[derive(Debug, Clone, PartialEq, Eq)]
pub enum Invocation {
    /// Nothing has to be built: the command runs the solution.
    Ready(Vec<String>),
    /// The step has to be run first, and `BuildStep::finish` gives the
    /// command from its report.
    Build(BuildStep),
}

/// A `BuildStep` with its commands as sequences of words.
pub struct BuildStepView {
    pub command: Seq<Seq<char>>,
    pub product: Seq<Seq<char>>,
    pub kind: BuildKind,
}

impl View for BuildStep {
    type V = BuildStepView;

    open spec fn view(&self) -> BuildStepView {
        BuildStepView {
            command: texts(self.command@),
            product: texts(self.product@),
            kind: self.kind,
        }
    }
}

/// An `Invocation` with its commands as sequences of words.
pub enum InvocationView {
    Ready(Seq<Seq<char>>),
    Build(BuildStepView),
}

impl View for Invocation {
    type V = InvocationView;

    open spec fn view(&self) -> InvocationView {
        match self {
            Invocation::Ready(command) => InvocationView::Ready(texts(command@)),
            Invocation::Build(step) => InvocationView::Build(step@),
        }
    }
}

/// The note added to the reason for which a compiler did not start.
pub open spec fn path_hint() -> Seq<char> {
    ". (The compiler might not be in your PATH.)"@
}

/// The error that a build of `kind` ends in when it could not be started for
/// `reason`.
pub open spec fn not_started(kind: BuildKind, reason: Seq<char>) -> ErrorView {
    match kind {
        BuildKind::Compilation => ErrorView::CompilationFailed(reason + path_hint()),
        BuildKind::MakeRule => ErrorView::MakefileBuildFailed(reason),
    }
}

/// The error that a build of `kind` ends in when it exited with `status`
/// and without success.
pub open spec fn failed(kind: BuildKind, status: Seq<char>) -> ErrorView {
    match kind {
        BuildKind::Compilation => ErrorView::CompilationFailed(status),
        BuildKind::MakeRule => ErrorView::MakefileBuildFailed(status),
    }
}

impl BuildStepView {
    /// The command that runs the solution after the build, or the error
    /// that the build ended in.
    ///
    /// A build that was not started or did not succeed is an error. After a
    /// compilation that succeeded, the command is the canonical path of the
    /// executable alone, and the product as it is where that path is not
    /// known. After a build rule that succeeded, it is the product.
    pub open spec fn finish(self, report: BuildReport) -> Result<Seq<Seq<char>>, ErrorView> {
        match report {
            BuildReport::NotStarted(reason) => Err(not_started(self.kind, reason@)),
            BuildReport::Exited { success, status, canonical } => {
                if !success {
                    Err(failed(self.kind, status@))
                } else {
                    match (self.kind, canonical) {
                        (BuildKind::Compilation, Some(path)) => Ok(seq![path@]),
                        _ => Ok(self.product),
                    }
                }
            },
        }
    }
}

impl BuildStep {

    /// Decides, from the report of the build, the command that runs the
    /// solution.
    pub fn finish(self, report: BuildReport) -> (result: Result<Vec<String>, Error>)
        ensures
            match result {
                Ok(command) => self@.finish(report) == Ok::<Seq<Seq<char>>, ErrorView>(
                    texts(command@),
                ),
                Err(error) => self@.finish(report) == Err::<Seq<Seq<char>>, ErrorView>(error@),
            },
    {
        match report {
            BuildReport::NotStarted(reason) => {
                match self.kind {
                    BuildKind::Compilation => Err(
                        Error::CompilationFailed(
                            reason.concat(". (The compiler might not be in your PATH.)"),
                        ),
                    ),
                    BuildKind::MakeRule => Err(Error::MakefileBuildFailed(reason)),
                }
            },
            BuildReport::Exited { success, status, canonical } => {
                if !success {
                    match self.kind {
                        BuildKind::Compilation => Err(Error::CompilationFailed(status)),
                        BuildKind::MakeRule => Err(Error::MakefileBuildFailed(status)),
                    }
                } else {
                    match (self.kind, canonical) {
                        (BuildKind::Compilation, Some(path)) => Ok(single(path)),
                        _ => Ok(self.product),
                    }
                }
            },
        }
    }
}

/// A language processor, such as a compiler or an interpreter.
pub trait LanguageProcessor {
    /// What has to be done to run the solution at `source` with `args`,
    /// writing an executable, where one is written, to `exec`.
    fn run(&self, args: Option<Vec<String>>, source: Source, exec: Option<String>) -> Result<
        Invocation,
        Error,
    >;
}

/// A language processor that compiles.
pub trait Compiler: LanguageProcessor {
    /// The build that compiles `source` with `flags` into `exec`.
    fn run_compiled(&self, flags: Option<Vec<String>>, source: &Source, exec: String) -> BuildStep;
}

/// A language processor that interprets.
pub trait Interpreter: LanguageProcessor {
    /// The command that runs `source` with `flags` under the interpreter.
    fn run_interpreted(&self, flags: Option<Vec<String>>, source: Source) -> Vec<String>;
}

/// A makefile taken as a language processor: it has a rule that runs the
/// solution and may have one that builds it.
pub trait Make: LanguageProcessor {
    /// The command that makes `target`, or the run rule where none is given.
    fn run_target(&self, target: Option<String>) -> Vec<String>;
}

} // verus!

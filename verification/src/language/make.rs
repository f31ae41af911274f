//! A makefile with a rule that runs the solution and, where the solution
//! has to be built, a rule that builds it.

use crate::language::{
    BuildKind, BuildStep, BuildStepView, Error, Invocation, InvocationView, LanguageProcessor, Make,
};
use crate::solution::Source;
use crate::text::{opt_text, texts};
use vstd::prelude::*;

verus! {

/// A makefile, by the directory it lies in and the names of its rules.
#[derive(Debug, Clone, PartialEq, Eq)]
pub struct Makefile {
    /// The directory where the makefile lies.
    pub path: String,
    /// The target of the build rule, where there is one.
    pub build: Option<String>,
    /// The target of the run rule.
    pub run: String,
}

/// The words of the command that makes `target` in the directory `path`.
pub open spec fn make_command(path: Seq<char>, target: Seq<char>) -> Seq<Seq<char>> {
    seq!["make"@, "-C"@, path, target]
}

/// What a makefile in `path` asks for: its build rule first, where it has
/// one, and its run rule to run the solution.
pub open spec fn make_invocation(path: Seq<char>, build: Option<Seq<char>>, run: Seq<char>) -> InvocationView {
    match build {
        Some(target) => InvocationView::Build(
            BuildStepView {
                command: make_command(path, target),
                product: make_command(path, run),
                kind: BuildKind::MakeRule,
            },
        ),
        None => InvocationView::Ready(make_command(path, run)),
    }
}

impl Makefile {
    /// The makefile in `path` with the rules `build` and `run`.
    pub fn new(path: String, build: Option<String>, run: String) -> (makefile: Self)
        ensures
            makefile.path == path,
            makefile.build == build,
            makefile.run == run,
    {
        Self { path, build, run }
    }

    /// The command that makes `target`.
    pub fn rule(&self, target: &str) -> (command: Vec<String>)
        ensures
            texts(command@) == make_command(self.path@, target@),
    {
        let mut command: Vec<String> = Vec::new();
        command.push("make".to_string());
        command.push("-C".to_string());
        command.push(self.path.clone());
        command.push(target.to_string());
        assert(texts(command@) =~= make_command(self.path@, target@));
        command
    }
}

impl LanguageProcessor for Makefile {
    /// Asks for the build rule to be made first, where there is one; the
    /// command that runs the solution makes the run rule. The arguments are
    /// not used: the makefile knows its sources.
    fn run(&self, args: Option<Vec<String>>, source: Source, exec: Option<String>) -> (result:
        Result<Invocation, Error>)
        ensures
            result matches Ok(invocation) && invocation@ == make_invocation(
                self.path@,
                opt_text(self.build),
                self.run@,
            ),
    {
        let product = self.rule(self.run.as_str());
        match &self.build {
            Some(target) => Ok(
                Invocation::Build(
                    BuildStep {
                        command: self.rule(target.as_str()),
                        product,
                        kind: BuildKind::MakeRule,
                    },
                ),
            ),
            None => Ok(Invocation::Ready(product)),
        }
    }
}

impl Make for Makefile {
    /// The command that makes `target`, or the run rule where none is given.
    fn run_target(&self, target: Option<String>) -> (command: Vec<String>)
        ensures
            texts(command@) == make_command(
                self.path@,
                match target {
                    Some(t) => t@,
                    None => self.run@,
                },
            ),
    {
        match target {
            Some(t) => self.rule(t.as_str()),
            None => self.rule(self.run.as_str()),
        }
    }
}

} // verus!

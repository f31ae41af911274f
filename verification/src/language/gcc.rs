//! GCC as a compiler, for C, C++, D and Go.

use crate::language::{
    BuildKind, BuildStep, BuildStepView, Compiler, Error, ErrorView, Invocation, InvocationView,
    LanguageProcessor,
};
use crate::solution::Source;
use crate::text::{extend_with, lemma_texts_push, opt_texts, single, texts};
use vstd::prelude::*;

verus! {

/// The languages that GCC is used for.
#[derive(Debug, Clone, Copy, PartialEq, Eq, Structural)]
pub enum SupportedGccLanguage {
    C,
    Cpp,
    D,
    Go,
}

impl SupportedGccLanguage {
    /// The name of the compiler's executable.
    pub open spec fn compiler(self) -> Seq<char> {
        match self {
            SupportedGccLanguage::C => "gcc"@,
            SupportedGccLanguage::Cpp => "g++"@,
            SupportedGccLanguage::D => "gdc"@,
            SupportedGccLanguage::Go => "gccgo"@,
        }
    }

    /// The name by which the compiler knows the language.
    pub open spec fn name(self) -> Seq<char> {
        match self {
            SupportedGccLanguage::C => "c"@,
            SupportedGccLanguage::Cpp => "c++"@,
            SupportedGccLanguage::D => "d"@,
            SupportedGccLanguage::Go => "go"@,
        }
    }
}

/// GCC, set to one language.
#[derive(Debug, Clone, Copy, PartialEq, Eq, Structural)]
pub struct Gcc {
    pub language: SupportedGccLanguage,
}

/// The words of the command that compiles `source` with `flags` into `exec`:
/// the compiler, the flags, the source, `-o` and the executable.
pub open spec fn compile_command(
    language: SupportedGccLanguage,
    flags: Seq<Seq<char>>,
    source: Source,
    exec: Seq<char>,
) -> Seq<Seq<char>> {
    seq![language.compiler()] + flags + seq![source.spec_argument(), "-o"@, exec]
}

/// The build that compiles `source` with `flags` into `exec`, which is also
/// what it produces.
pub open spec fn compilation(
    language: SupportedGccLanguage,
    flags: Seq<Seq<char>>,
    source: Source,
    exec: Seq<char>,
) -> BuildStepView {
    BuildStepView {
        command: compile_command(language, flags, source, exec),
        product: seq![exec],
        kind: BuildKind::Compilation,
    }
}

/// The detail of the error for a compilation without a place for the
/// executable.
pub open spec fn no_exec() -> Seq<char> {
    "No path for the executable provided."@
}

impl Gcc {
    /// GCC for `language`.
    pub fn new(language: SupportedGccLanguage) -> (gcc: Self)
        ensures
            gcc.language == language,
    {
        Self { language }
    }

    /// The name of the compiler's executable and the name of the language.
    pub fn get_lang(&self) -> (names: (String, String))
        ensures
            names.0@ == self.language.compiler(),
            names.1@ == self.language.name(),
    {
        match self.language {
            SupportedGccLanguage::C => ("gcc".to_string(), "c".to_string()),
            SupportedGccLanguage::Cpp => ("g++".to_string(), "c++".to_string()),
            SupportedGccLanguage::D => ("gdc".to_string(), "d".to_string()),
            SupportedGccLanguage::Go => ("gccgo".to_string(), "go".to_string()),
        }
    }
}

impl Default for Gcc {
    fn default() -> (gcc: Self)
        ensures
            gcc.language == SupportedGccLanguage::C,
    {
        Self { language: SupportedGccLanguage::C }
    }
}

impl LanguageProcessor for Gcc {
    /// Asks for the compilation of `source` into `exec`. Without an `exec`
    /// there is nothing to compile into, which is an error.
    fn run(&self, args: Option<Vec<String>>, source: Source, exec: Option<String>) -> (result:
        Result<Invocation, Error>)
        ensures
            match exec {
                Some(path) => result matches Ok(invocation) && invocation@
                    == InvocationView::Build(
                    compilation(self.language, opt_texts(args), source, path@),
                ),
                None => result matches Err(error) && error@ == ErrorView::CompilationFailed(
                    no_exec(),
                ),
            },
    {
        match exec {
            Some(path) => Ok(Invocation::Build(self.run_compiled(args, &source, path))),
            None => Err(
                Error::CompilationFailed("No path for the executable provided.".to_string()),
            ),
        }
    }
}

impl Compiler for Gcc {
    /// The build whose command is the compiler, the flags, the source, `-o`
    /// and `exec`, and whose product is `exec`.
    fn run_compiled(&self, flags: Option<Vec<String>>, source: &Source, exec: String) -> (step:
        BuildStep)
        ensures
            step@ == compilation(self.language, opt_texts(flags), *source, exec@),
    {
        let names = self.get_lang();
        let mut command = single(names.0);
        match &flags {
            Some(words) => {
                extend_with(&mut command, words);
            },
            None => {},
        }
        assert(texts(command@) =~= seq![self.language.compiler()] + opt_texts(flags));
        let argument = source.argument();
        let dash_o = "-o".to_string();
        proof {
            lemma_texts_push(command@, argument);
            lemma_texts_push(command@.push(argument), dash_o);
            lemma_texts_push(command@.push(argument).push(dash_o), exec);
            assert(texts(command@).push(argument@).push(dash_o@).push(exec@) =~= compile_command(
                self.language,
                opt_texts(flags),
                *source,
                exec@,
            ));
        }
        command.push(argument);
        command.push(dash_o);
        command.push(exec.clone());
        BuildStep { command, product: single(exec), kind: BuildKind::Compilation }
    }
}

} // verus!

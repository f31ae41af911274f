//! Python as an interpreter, with or without a version.

use crate::language::{Error, Interpreter, Invocation, InvocationView, LanguageProcessor};
use crate::pattern::{is_match, matches_pattern};
use crate::solution::Source;
use crate::text::{extend_with, lemma_texts_push, opt_texts, single, texts};
use vstd::prelude::*;

verus! {

/// The interpreter, by the version that its executable's name ends in.
#[derive(Debug, Clone, PartialEq, Eq)]
pub struct Python {
    version: Option<String>,
}

/// The error of a version that is not of the accepted form.
#[derive(Debug, Clone, Copy, PartialEq, Eq, Structural)]
pub struct InvalidVersion;

impl InvalidVersion {
    /// The error as one line of text.
    pub fn to_string(&self) -> (text: String)
        ensures
            text@ == "Version of python is not valid"@,
    {
        "Version of python is not valid".to_string()
    }
}

/// The form of a version: a major number from 1 to 3, alone or followed by
/// a dot and a minor number of one or two digits.
pub open spec fn version_pattern() -> Seq<char> {
    r"^([1-3](\.[0-9]{1,2})?)$"@
}

/// The name of the interpreter's executable: `python`, followed by the
/// version where there is one.
pub open spec fn interpreter(version: Option<Seq<char>>) -> Seq<char> {
    match version {
        Some(v) => "python"@ + v,
        None => "python"@,
    }
}

/// The words of the command that runs `source` with `flags`: the
/// interpreter, the flags and the source.
pub open spec fn interpret_command(
    version: Option<Seq<char>>,
    flags: Seq<Seq<char>>,
    source: Source,
) -> Seq<Seq<char>> {
    seq![interpreter(version)] + flags + seq![source.spec_argument()]
}

impl Python {
    /// The version, where one was set.
    pub closed spec fn spec_version(self) -> Option<Seq<char>> {
        match self.version {
            Some(v) => Some(v@),
            None => None,
        }
    }

    /// Python without a version.
    pub fn new() -> (python: Self)
        ensures
            python.spec_version() is None,
    {
        Self { version: None }
    }

    /// The version, where one was set.
    pub fn version(&self) -> (version: Option<&String>)
        ensures
            match version {
                Some(v) => self.spec_version() == Some(v@),
                None => self.spec_version() is None,
            },
    {
        self.version.as_ref()
    }

    /// A copy of the interpreter.
    pub fn duplicate(&self) -> (python: Self)
        ensures
            python.spec_version() == self.spec_version(),
    {
        match &self.version {
            Some(version) => Self { version: Some(version.clone()) },
            None => Self { version: None },
        }
    }

    /// Sets `version` if it was found to be of the accepted form, and fails
    /// if it was not.
    pub fn versioned(self, version: &str, accepted: bool) -> (result: Result<Self, InvalidVersion>)
        ensures
            accepted ==> (result matches Ok(python) && python.spec_version() == Some(version@)),
            !accepted ==> result is Err,
    {
        if accepted {
            Ok(Self { version: Some(version.to_string()) })
        } else {
            Err(InvalidVersion)
        }
    }

    /// Sets `version`, which has to match the pattern of versions.
    pub fn with_version(self, version: &str) -> (result: Result<Self, InvalidVersion>)
        ensures
            matches_pattern(version_pattern(), version@) ==> (result matches Ok(python)
                && python.spec_version() == Some(version@)),
            !matches_pattern(version_pattern(), version@) ==> result is Err,
    {
        let accepted = is_match(r"^([1-3](\.[0-9]{1,2})?)$", version);
        self.versioned(version, accepted)
    }
}

impl Default for Python {
    fn default() -> (python: Self)
        ensures
            python.spec_version() is None,
    {
        Self::new()
    }
}

impl LanguageProcessor for Python {
    /// The command that interprets `source`. Nothing is built, and `exec`
    /// is not used.
    fn run(&self, args: Option<Vec<String>>, source: Source, exec: Option<String>) -> (result:
        Result<Invocation, Error>)
        ensures
            result matches Ok(invocation) && invocation@ == InvocationView::Ready(
                interpret_command(self.spec_version(), opt_texts(args), source),
            ),
    {
        Ok(Invocation::Ready(self.run_interpreted(args, source)))
    }
}

impl Interpreter for Python {
    /// The interpreter, the flags and the source, in this order.
    fn run_interpreted(&self, flags: Option<Vec<String>>, source: Source) -> (command: Vec<String>)
        ensures
            texts(command@) == interpret_command(self.spec_version(), opt_texts(flags), source),
    {
        let name = match &self.version {
            Some(version) => "python".to_string().concat(version.as_str()),
            None => "python".to_string(),
        };
        let mut command = single(name);
        match &flags {
            Some(words) => {
                extend_with(&mut command, words);
            },
            None => {},
        }
        assert(texts(command@) =~= seq![interpreter(self.spec_version())] + opt_texts(flags));
        let argument = source.argument();
        proof {
            lemma_texts_push(command@, argument);
            assert(texts(command@).push(argument@) =~= interpret_command(
                self.spec_version(),
                opt_texts(flags),
                source,
            ));
        }
        command.push(argument);
        command
    }
}

} // verus!

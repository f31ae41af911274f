//! Where a solution lies.

use crate::language::LanguageProcessor;
use vstd::prelude::*;

verus! {

/// A solution: the language processor that runs it and the place of its
/// source.
#[derive(Debug)]
pub struct Solution<L: LanguageProcessor> {
    /// The language processor used to run the solution.
    pub processor: L,
    /// Where the solution is kept.
    pub source: Source,
}

impl<L: LanguageProcessor> Solution<L> {
    /// The solution at `source`, run by `processor`.
    pub fn new(processor: L, source: Source) -> (solution: Self)
        ensures
            solution.processor == processor,
            solution.source == source,
    {
        Self { processor, source }
    }
}

/// The place of a solution's source. Paths are kept as text.
#[derive(Debug, Clone, PartialEq, Eq)]
pub enum Source {
    /// A single source file.
    File(String),
    /// A directory that holds only source files.
    Directory(String),
    /// An expression that names a directory and selects the files in it.
    Regex { regex: String },
}

impl Source {
    /// The word that stands for the source on a command line: the file's
    /// path, every entry of the directory, or the expression as it is.
    pub open spec fn spec_argument(self) -> Seq<char> {
        match self {
            Source::File(file) => file@,
            Source::Directory(dir) => dir@ + "/*"@,
            Source::Regex { regex } => regex@,
        }
    }

    /// The word that stands for the source on a command line.
    pub fn argument(&self) -> (word: String)
        ensures
            word@ == self.spec_argument(),
    {
        match self {
            Source::File(file) => file.clone(),
            Source::Directory(dir) => dir.clone().concat("/*"),
            Source::Regex { regex } => regex.clone(),
        }
    }
}

} // verus!

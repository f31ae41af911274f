//! What is made of a solution that is handed in to be checked in a sandbox:
//! the tests of its problem, by the names of their files, and the
//! configuration that the checker inside the sandbox is given.

use crate::acadchecker::config::{Config, SupportedProcessor};
use crate::checker::config::{CheckerConfig, MonitorType, OutputType};
use crate::language::gcc::Gcc;
use crate::language::make::Makefile;
use crate::language::python::Python;
use crate::pattern::{is_match, matches_pattern};
use crate::sandbox::SandboxConfig;
use crate::solution::Source;
use crate::text::texts;
use crate::maps::lemma_walk_meets_all;
use std::collections::BTreeMap;
use vstd::prelude::*;
use vstd::std_specs::btree::*;
use vstd::std_specs::iter::IteratorSpec;
use vstd::utf8::encode_utf8;

verus! {

/// The time that a solution is given on every test, in seconds.
#[derive(Debug, Clone, Copy, PartialEq, Eq, Structural)]
pub struct UploadTimeLimit {
    pub secs: u64,
}

/// The lines of a source that a solution was to fill in.
#[derive(Debug, Clone, PartialEq, Eq)]
pub struct Prechecker {
    pub lines: Vec<(usize, usize)>,
    pub source: String,
}

/// The language processor as the one who hands in a solution names it:
/// without the place of the executable, which is not theirs to choose.
#[derive(Debug, Clone, PartialEq, Eq)]
pub enum UploadSupportedProcessor {
    Gcc { gcc: Gcc, flags: Vec<String> },
    Python { python: Python, flags: Vec<String> },
    Makefile { makefile: Makefile },
}

/// What is handed in with a solution.
#[derive(Debug, Clone, PartialEq, Eq)]
pub struct UploadConfig {
    pub processor: UploadSupportedProcessor,
    pub time_limit: UploadTimeLimit,
    pub prechecker: Option<Prechecker>,
}

/// The place of the executable inside a sandbox.
pub open spec fn sandbox_executable() -> Seq<char> {
    "/restricted/home/sandbox/solution"@
}

/// A `SupportedProcessor` by what it is made of.
pub enum ProcessorView {
    Gcc { gcc: Gcc, flags: Seq<Seq<char>>, executable: Seq<char> },
    Python { version: Option<Seq<char>>, flags: Seq<Seq<char>> },
    Makefile { path: Seq<char>, build: Option<Seq<char>>, run: Seq<char> },
}

/// What `processor` is made of.
pub open spec fn processor_view(processor: SupportedProcessor) -> ProcessorView {
    match processor {
        SupportedProcessor::Gcc { gcc, flags, executable } => ProcessorView::Gcc {
            gcc,
            flags: texts(flags@),
            executable: executable@,
        },
        SupportedProcessor::Python { python, flags } => ProcessorView::Python {
            version: python.spec_version(),
            flags: texts(flags@),
        },
        SupportedProcessor::Makefile { makefile } => ProcessorView::Makefile {
            path: makefile.path@,
            build: crate::text::opt_text(makefile.build),
            run: makefile.run@,
        },
    }
}

impl UploadSupportedProcessor {
    /// What the processor that the checker is configured with is made of:
    /// the same as this one, and GCC writes to the place of the executable
    /// inside a sandbox.
    pub open spec fn supported(self) -> ProcessorView {
        match self {
            UploadSupportedProcessor::Gcc { gcc, flags } => ProcessorView::Gcc {
                gcc,
                flags: texts(flags@),
                executable: sandbox_executable(),
            },
            UploadSupportedProcessor::Python { python, flags } => ProcessorView::Python {
                version: python.spec_version(),
                flags: texts(flags@),
            },
            UploadSupportedProcessor::Makefile { makefile } => ProcessorView::Makefile {
                path: makefile.path@,
                build: crate::text::opt_text(makefile.build),
                run: makefile.run@,
            },
        }
    }

    /// The processor that the checker is configured with.
    pub fn into_supported(&self) -> (processor: SupportedProcessor)
        ensures
            processor_view(processor) == self.supported(),
    {
        match self {
            UploadSupportedProcessor::Gcc { gcc, flags } => SupportedProcessor::Gcc {
                gcc: *gcc,
                flags: flags.clone(),
                executable: "/restricted/home/sandbox/solution".to_string(),
            },
            UploadSupportedProcessor::Python { python, flags } => SupportedProcessor::Python {
                python: python.duplicate(),
                flags: flags.clone(),
            },
            UploadSupportedProcessor::Makefile { makefile } => SupportedProcessor::Makefile {
                makefile: Makefile::new(
                    makefile.path.clone(),
                    match &makefile.build {
                        Some(target) => Some(target.clone()),
                        None => None,
                    },
                    makefile.run.clone(),
                ),
            },
        }
    }
}

/// The pattern of the name of an input in the archive of a problem's tests.
pub const IN_REGEX: &'static str = "in/[0-9][0-9][0-9].in";

/// The pattern of the name of a reference in that archive.
pub const REF_REGEX: &'static str = "ref/[0-9][0-9][0-9].ref";

/// Whether `byte` is a decimal digit.
pub open spec fn is_digit(byte: u8) -> bool {
    48 <= byte <= 57
}

/// The number written in the three bytes of `bytes` from `from` on: three
/// decimal digits, or a plus sign and two. Anything else is no number.
pub open spec fn number_at(bytes: Seq<u8>, from: int) -> Option<usize> {
    if from < 0 || from + 3 > bytes.len() {
        None
    } else if is_digit(bytes[from]) && is_digit(bytes[from + 1]) && is_digit(bytes[from + 2]) {
        Some(
            (100 * (bytes[from] - 48) + 10 * (bytes[from + 1] - 48) + (bytes[from + 2]
                - 48)) as usize,
        )
    } else if bytes[from] == 43 && is_digit(bytes[from + 1]) && is_digit(bytes[from + 2]) {
        Some((10 * (bytes[from + 1] - 48) + (bytes[from + 2] - 48)) as usize)
    } else {
        None
    }
}

/// Reads the number written in the three bytes of `bytes` from `from` on.
pub fn read_number(bytes: &[u8], from: usize) -> (number: Option<usize>)
    ensures
        number == number_at(bytes@, from as int),
{
    if bytes.len() < 3 || from > bytes.len() - 3 {
        return None;
    }
    let a = bytes[from];
    let b = bytes[from + 1];
    let c = bytes[from + 2];
    let digit = |byte: u8| -> (yes: bool)
        ensures
            yes == is_digit(byte),
        { 48 <= byte && byte <= 57 };
    if digit(b) && digit(c) {
        let low: usize = 10 * ((b - 48) as usize) + ((c - 48) as usize);
        if digit(a) {
            Some(100 * ((a - 48) as usize) + low)
        } else if a == 43 {
            Some(low)
        } else {
            None
        }
    } else {
        None
    }
}

/// The number of the test that the file `name` of an archive is the input
/// of: the name matches the pattern of inputs and has the number behind its
/// first three bytes. A file that is no input has none.
pub open spec fn spec_input_key(name: Seq<char>) -> Option<usize> {
    if matches_pattern(IN_REGEX@, name) {
        number_at(encode_utf8(name), 3)
    } else {
        None
    }
}

/// The number of the test that the file `name` of an archive is the
/// reference of: the name matches the pattern of references and has the
/// number behind its first four bytes. A file that is no reference has
/// none.
pub open spec fn spec_reference_key(name: Seq<char>) -> Option<usize> {
    if matches_pattern(REF_REGEX@, name) {
        number_at(encode_utf8(name), 4)
    } else {
        None
    }
}

/// The number of the test that the file `name` is the input of, given
/// whether the name was found to match the pattern of inputs.
pub fn input_key_of(name: &str, matched: bool) -> (key: Option<usize>)
    ensures
        key == if matched {
            number_at(encode_utf8(name@), 3)
        } else {
            None
        },
{
    if matched {
        read_number(name.as_bytes(), 3)
    } else {
        None
    }
}

/// The number of the test that the file `name` is the reference of, given
/// whether the name was found to match the pattern of references.
pub fn reference_key_of(name: &str, matched: bool) -> (key: Option<usize>)
    ensures
        key == if matched {
            number_at(encode_utf8(name@), 4)
        } else {
            None
        },
{
    if matched {
        read_number(name.as_bytes(), 4)
    } else {
        None
    }
}

/// The number of the test that the file `name` is the input of.
pub fn input_key(name: &str) -> (key: Option<usize>)
    ensures
        key == spec_input_key(name@),
{
    input_key_of(name, is_match(IN_REGEX, name))
}

/// The number of the test that the file `name` is the reference of.
pub fn reference_key(name: &str) -> (key: Option<usize>)
    ensures
        key == spec_reference_key(name@),
{
    reference_key_of(name, is_match(REF_REGEX, name))
}

/// The text `text` with every carriage return that a line feed follows
/// taken out, so that its lines end as they do on Unix.
pub open spec fn unix_lines(text: Seq<u8>) -> Seq<u8>
    decreases text.len(),
{
    if text.len() == 0 {
        text
    } else if text.len() >= 2 && text[0] == 13u8 && text[1] == 10u8 {
        seq![10u8] + unix_lines(text.skip(2))
    } else {
        seq![text[0]] + unix_lines(text.drop_first())
    }
}

/// Takes out of `text` every carriage return that a line feed follows.
pub fn to_unix_lines(text: &[u8]) -> (result: Vec<u8>)
    ensures
        result@ == unix_lines(text@),
{
    let mut result: Vec<u8> = Vec::new();
    let mut i: usize = 0;
    proof {
        assert(text@.skip(0) =~= text@);
    }
    while i < text.len()
        invariant
            i <= text.len(),
            result@ + unix_lines(text@.skip(i as int)) == unix_lines(text@),
        decreases text.len() - i,
    {
        let ghost rest = text@.skip(i as int);
        if text[i] == 13u8 && i + 1 < text.len() && text[i + 1] == 10u8 {
            proof {
                assert(rest.skip(2) =~= text@.skip(i as int + 2));
                assert(result@.push(10u8) + unix_lines(rest.skip(2)) =~= result@ + (seq![10u8]
                    + unix_lines(rest.skip(2))));
            }
            result.push(10u8);
            i += 2;
        } else {
            proof {
                assert(rest.drop_first() =~= text@.skip(i as int + 1));
                assert(result@.push(rest[0]) + unix_lines(rest.drop_first()) =~= result@ + (
                seq![rest[0]] + unix_lines(rest.drop_first())));
            }
            result.push(text[i]);
            i += 1;
        }
    }
    proof {
        assert(result@ + Seq::<u8>::empty() =~= result@);
    }
    result
}

/// The tests with `input` as the input of the test `key`, whatever that
/// test held as its input before.
pub open spec fn with_input<T>(
    tests: Map<usize, (Option<T>, Option<T>)>,
    input: T,
    key: usize,
) -> Map<usize, (Option<T>, Option<T>)> {
    tests.insert(
        key,
        (
            Some(input),
            if tests.contains_key(key) {
                tests[key].1
            } else {
                None
            },
        ),
    )
}

/// The tests with `reference` as the reference of the test `key`, whatever
/// that test held as its reference before.
pub open spec fn with_reference<T>(
    tests: Map<usize, (Option<T>, Option<T>)>,
    reference: T,
    key: usize,
) -> Map<usize, (Option<T>, Option<T>)> {
    tests.insert(
        key,
        (
            if tests.contains_key(key) {
                tests[key].0
            } else {
                None
            },
            Some(reference),
        ),
    )
}

/// A holder of the inputs and references of tests, by the tests' numbers.
pub trait InRefHolder<T> {
    /// Makes `f` the input of the test `key`.
    fn insert_in(&mut self, f: T, key: usize);

    /// Makes `f` the reference of the test `key`.
    fn insert_ref(&mut self, f: T, key: usize);
}

impl<T> InRefHolder<T> for BTreeMap<usize, (Option<T>, Option<T>)> {
    fn insert_in(&mut self, f: T, key: usize)
        ensures
            final(self)@ == with_input(old(self)@, f, key),
    {
        assert(vstd::laws_cmp::obeys_cmp::<usize>());
        match self.remove(&key) {
            Some(pair) => {
                self.insert(key, (Some(f), pair.1));
            },
            None => {
                self.insert(key, (Some(f), None));
            },
        }
        assert(self@ =~= with_input(old(self)@, f, key));
    }

    fn insert_ref(&mut self, f: T, key: usize)
        ensures
            final(self)@ == with_reference(old(self)@, f, key),
    {
        assert(vstd::laws_cmp::obeys_cmp::<usize>());
        match self.remove(&key) {
            Some(pair) => {
                self.insert(key, (pair.0, Some(f)));
            },
            None => {
                self.insert(key, (None, Some(f)));
            },
        }
        assert(self@ =~= with_reference(old(self)@, f, key));
    }
}

/// Where the files named in `names` lie inside a sandbox: the name of the
/// input behind `ins` and that of the reference behind `refs`, for a test
/// that has both, and two empty paths for one that lacks either.
pub open spec fn staged_pair(
    names: (Option<String>, Option<String>),
    ins: Seq<char>,
    refs: Seq<char>,
) -> (Seq<char>, Seq<char>) {
    match names {
        (Some(input), Some(reference)) => (ins + input@, refs + reference@),
        _ => (Seq::empty(), Seq::empty()),
    }
}

/// Where the input and the reference of one test lie inside a sandbox.
pub fn stage_pair(names: &(Option<String>, Option<String>), ins: &str, refs: &str) -> (pair: (
    String,
    String,
))
    ensures
        (pair.0@, pair.1@) == staged_pair(*names, ins@, refs@),
{
    match names {
        (Some(input), Some(reference)) => (
            ins.to_string().concat(input.as_str()),
            refs.to_string().concat(reference.as_str()),
        ),
        _ => (String::new(), String::new()),
    }
}

/// Where the inputs and references of all tests lie inside a sandbox, by
/// the names of their files.
pub fn staged_tests(
    names: &BTreeMap<usize, (Option<String>, Option<String>)>,
    ins: &str,
    refs: &str,
) -> (tests: BTreeMap<usize, (String, String)>)
    ensures
        tests@.dom() == names@.dom(),
        forall|id: usize| #[trigger]
            names@.contains_key(id) ==> (tests@[id].0@, tests@[id].1@) == staged_pair(
                names@[id],
                ins@,
                refs@,
            ),
{
    let mut tests: BTreeMap<usize, (String, String)> = BTreeMap::new();
    assert(vstd::laws_cmp::obeys_cmp::<usize>());
    assert(key_obeys_cmp_spec::<usize>());
    for (id, pair) in it: names.iter()
        invariant
            it.seq() == spec_btree_map_iter(names).remaining(),
            vstd::laws_cmp::obeys_cmp::<usize>(),
            forall|id: usize| #[trigger]
                tests@.contains_key(id) ==> names@.contains_key(id) && (
                    tests@[id].0@,
                    tests@[id].1@,
                ) == staged_pair(names@[id], ins@, refs@),
            forall|i: int|
                0 <= i < it.index() ==> tests@.contains_key(*(#[trigger] it.seq()[i]).0),
    {
        assert(names@.contains_key(*id) && names@[*id] == *pair);
        let staged = stage_pair(pair, ins, refs);
        tests.insert(*id, staged);
    }
    proof {
        lemma_walk_meets_all(names, tests@.dom());
    }
    assert(tests@.dom() =~= names@.dom());
    tests
}

/// The command that a sandbox runs: the checker with the configuration in
/// the file `config_name`.
pub fn command_for(config_name: &str) -> (command: Vec<String>)
    ensures
        texts(command@) == seq!["acadchecker"@, "--config"@, config_name@],
{
    let mut command: Vec<String> = Vec::new();
    command.push("acadchecker".to_string());
    command.push("--config".to_string());
    command.push(config_name.to_string());
    assert(texts(command@) =~= seq!["acadchecker"@, "--config"@, config_name@]);
    command
}

/// The configuration that the checker inside a sandbox is given for a
/// solution that was handed in with `upload`: the tests as they lie in the
/// sandbox, judged as passed or failed under `monitors`; the processor
/// that was named; the solution in the file `solution_name` behind the
/// directory of solutions; and the output directory and the identity of
/// the sandbox.
pub fn config_for(
    upload: &UploadConfig,
    monitors: Vec<MonitorType>,
    in_refs: BTreeMap<usize, (String, String)>,
    solution_name: &str,
    sandbox: &SandboxConfig,
) -> (config: Config<String, String>)
    ensures
        config.checker.monitors == monitors,
        config.checker.output_type == OutputType::Binary,
        config.checker.in_refs == in_refs,
        processor_view(config.processor) == upload.processor.supported(),
        config.solution matches Source::File(path) && path@ == sandbox.src@ + solution_name@,
        config.out_dir@ == sandbox.out@,
        config.security matches Some(security) && security.user@ == sandbox.security.user@
            && security.group@ == sandbox.security.group@,
{
    Config {
        checker: CheckerConfig { monitors, output_type: OutputType::Binary, in_refs },
        processor: upload.processor.into_supported(),
        solution: Source::File(sandbox.src.clone().concat(solution_name)),
        out_dir: sandbox.out.clone(),
        security: Some(
            crate::acadchecker::config::Security {
                user: sandbox.security.user.clone(),
                group: sandbox.security.group.clone(),
            },
        ),
    }
}

} // verus!

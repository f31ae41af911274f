//! A checker run inside a sandbox: an environment of its own that is
//! created for one run, filled with the files of the run, started, listened
//! to and removed again.
//!
//! The sandbox itself is somebody else's: the caller performs every action
//! and reports what came of it. What is decided here is which action comes
//! next and what the run ends in.

pub mod lifecycle;
pub mod teardown;

use crate::acadchecker::config::{Output, OutputView, Security};
use crate::text::texts;
use vstd::prelude::*;

verus! {

/// The most memory an environment may use, in bytes.
pub const MEMORY_LIMIT: u64 = 300 * 1024 * 1024;

/// The most memory and swap together, in bytes.
pub const MEMORY_SWAP: i64 = 600 * 1024 * 1024;

/// The share of the processors, in billionths of one.
pub const NANO_CPUS: u64 = 500 * 1000 * 1000;

/// What an environment may use.
#[derive(Debug, Clone, Copy, PartialEq, Eq, Structural)]
pub struct Limits {
    /// The most memory, in bytes.
    pub memory: u64,
    /// The most memory and swap together, in bytes.
    pub memory_swap: i64,
    /// The share of the processors, in billionths of one.
    pub nano_cpus: u64,
}

impl Default for Limits {
    fn default() -> (limits: Self)
        ensures
            limits == (Limits {
                memory: MEMORY_LIMIT,
                memory_swap: MEMORY_SWAP,
                nano_cpus: NANO_CPUS,
            }),
    {
        Limits { memory: MEMORY_LIMIT, memory_swap: MEMORY_SWAP, nano_cpus: NANO_CPUS }
    }
}

/// Where things lie inside an environment, what it is made from and what
/// it may use.
#[derive(Debug, Clone, PartialEq, Eq)]
pub struct SandboxConfig {
    /// The image that an environment is created from.
    pub image: String,
    /// What an environment may use.
    pub limits: Limits,
    /// The directory of the inputs of the tests.
    pub ins: String,
    /// The directory of the references of the tests.
    pub refs: String,
    /// The directory that the outputs are written to.
    pub out: String,
    /// The directory of the configuration of the run.
    pub cfg: String,
    /// The directory of the solution.
    pub src: String,
    /// The identity that the solution runs under.
    pub security: Security,
}

/// The request for a new environment.
#[derive(Debug, Clone, PartialEq, Eq)]
pub struct Creation {
    pub image: String,
    pub command: Vec<String>,
    pub memory: u64,
    pub memory_swap: i64,
    pub nano_cpus: u64,
    pub privileged: bool,
    pub attach_stdin: bool,
    pub attach_stdout: bool,
    pub attach_stderr: bool,
}

/// A `Creation` with its texts as sequences of characters.
pub struct CreationView {
    pub image: Seq<char>,
    pub command: Seq<Seq<char>>,
    pub memory: u64,
    pub memory_swap: i64,
    pub nano_cpus: u64,
    pub privileged: bool,
    pub attach_stdin: bool,
    pub attach_stdout: bool,
    pub attach_stderr: bool,
}

impl View for Creation {
    type V = CreationView;

    open spec fn view(&self) -> CreationView {
        CreationView {
            image: self.image@,
            command: texts(self.command@),
            memory: self.memory,
            memory_swap: self.memory_swap,
            nano_cpus: self.nano_cpus,
            privileged: self.privileged,
            attach_stdin: self.attach_stdin,
            attach_stdout: self.attach_stdout,
            attach_stderr: self.attach_stderr,
        }
    }
}

/// The request for an environment of `image` that runs `command`: within
/// the limits on memory, swap and processors, without privileges, with its
/// output and its errors listened to and its input left alone.
pub open spec fn creation_of(image: Seq<char>, limits: Limits, command: Seq<Seq<char>>) -> CreationView {
    CreationView {
        image,
        command,
        memory: limits.memory,
        memory_swap: limits.memory_swap,
        nano_cpus: limits.nano_cpus,
        privileged: false,
        attach_stdin: false,
        attach_stdout: true,
        attach_stderr: true,
    }
}

/// One of the files that a run is staged with.
#[derive(Debug, Clone, Copy, PartialEq, Eq, Structural)]
pub enum StagedFile {
    /// The input of a test, by its place among the inputs.
    Input(usize),
    /// The reference of a test, by its place among the references.
    Reference(usize),
    /// The configuration of the run.
    Config,
    /// The solution.
    Solution,
}

/// How many inputs and references a run is staged with.
#[derive(Debug, Clone, Copy, PartialEq, Eq, Structural)]
pub struct Staging {
    pub ins: usize,
    pub refs: usize,
}

impl Staging {
    /// The number of files to copy: the inputs, the references, the
    /// configuration and the solution.
    pub open spec fn total(self) -> int {
        self.ins + self.refs + 2
    }

    /// The file that is copied after `copied` others: the inputs first,
    /// then the references, then the configuration, then the solution.
    pub open spec fn file_at(self, copied: int) -> StagedFile {
        if copied < self.ins {
            StagedFile::Input(copied as usize)
        } else if copied < self.ins + self.refs {
            StagedFile::Reference((copied - self.ins) as usize)
        } else if copied == self.ins + self.refs {
            StagedFile::Config
        } else {
            StagedFile::Solution
        }
    }
}

/// The directory that `file` is copied into.
pub open spec fn directory_of(config: SandboxConfig, file: StagedFile) -> Seq<char> {
    match file {
        StagedFile::Input(_) => config.ins@,
        StagedFile::Reference(_) => config.refs@,
        StagedFile::Config => config.cfg@,
        StagedFile::Solution => config.src@,
    }
}

/// A piece of what an environment wrote while it ran.
#[derive(Debug, Clone, PartialEq, Eq)]
pub enum Chunk {
    /// Written to the standard output.
    StdOut(String),
    /// Written to the standard error.
    StdErr(String),
}

/// What was written to the standard output in `chunks`, in order.
pub open spec fn written_out(chunks: Seq<Chunk>) -> Seq<char>
    decreases chunks.len(),
{
    if chunks.len() == 0 {
        Seq::empty()
    } else {
        match chunks.last() {
            Chunk::StdOut(text) => written_out(chunks.drop_last()) + text@,
            Chunk::StdErr(_) => written_out(chunks.drop_last()),
        }
    }
}

/// What was written to the standard error in `chunks`, in order.
pub open spec fn written_err(chunks: Seq<Chunk>) -> Seq<char>
    decreases chunks.len(),
{
    if chunks.len() == 0 {
        Seq::empty()
    } else {
        match chunks.last() {
            Chunk::StdOut(_) => written_err(chunks.drop_last()),
            Chunk::StdErr(text) => written_err(chunks.drop_last()) + text@,
        }
    }
}

/// Gathers what `chunks` wrote to the standard output and to the standard
/// error.
pub fn gather(chunks: &Vec<Chunk>) -> (written: (String, String))
    ensures
        written.0@ == written_out(chunks@),
        written.1@ == written_err(chunks@),
{
    let mut out = String::new();
    let mut err = String::new();
    let mut i: usize = 0;
    while i < chunks.len()
        invariant
            i <= chunks.len(),
            out@ == written_out(chunks@.take(i as int)),
            err@ == written_err(chunks@.take(i as int)),
        decreases chunks.len() - i,
    {
        proof {
            assert(chunks@.take(i as int + 1).drop_last() =~= chunks@.take(i as int));
            assert(chunks@.take(i as int + 1).last() == chunks@[i as int]);
        }
        match &chunks[i] {
            Chunk::StdOut(text) => {
                out.append(text.as_str());
            },
            Chunk::StdErr(text) => {
                err.append(text.as_str());
            },
        }
        i += 1;
    }
    proof {
        assert(chunks@.take(chunks.len() as int) =~= chunks@);
    }
    (out, err)
}

/// What the caller reports of the action it was asked for.
#[derive(Debug, Clone, PartialEq, Eq)]
pub enum Event {
    /// An environment was created; the text identifies it.
    Created(String),
    /// No environment was created. `not_found` says that the image is not
    /// known to the engine.
    CreateFailed { not_found: bool, message: String },
    /// The image was pulled.
    Pulled,
    /// The image could not be pulled.
    PullFailed(String),
    /// The pull ended without a word.
    PullEnded,
    /// The file was copied.
    Copied,
    /// The file could not be read or copied.
    CopyFailed(String),
    /// The environment ran to its end and wrote these chunks.
    Ran(Vec<Chunk>),
    /// The environment could not be started or attached to.
    StartFailed(String),
    /// What the environment wrote could not be had.
    LogsFailed(String),
    /// The output was read as this result.
    Parsed(Output),
    /// The output could not be read as a result.
    ParseFailed(String),
    /// The environment is destroyed.
    Destroyed,
    /// The environment could not be destroyed.
    DestroyFailed(String),
}

/// Where a run stands.
#[derive(Debug, Clone, PartialEq, Eq)]
pub enum State {
    /// An environment was asked for, for the second time if `retried`.
    Creating { retried: bool },
    /// The image is pulled, after a creation that failed for `cause`.
    Pulling { cause: String },
    /// The environment `id` exists and `copied` files are in it; the next
    /// is being copied.
    Created { id: String, copied: usize },
    /// All files are in the environment, which was started and is listened
    /// to.
    Started { id: String },
    /// The environment ran to its end; what it wrote is being read.
    Attached { id: String },
    /// The run has its result; the environment is being destroyed.
    Finished { id: String, output: Output },
    /// The run ended with the outcomes of the tests, and its environment
    /// was destroyed.
    Removed,
    /// The run ended in an error. Its environment, if it had one, was
    /// destroyed.
    Failed,
}

/// A `State` with its texts as sequences of characters.
pub enum StateView {
    Creating { retried: bool },
    Pulling { cause: Seq<char> },
    Created { id: Seq<char>, copied: usize },
    Started { id: Seq<char> },
    Attached { id: Seq<char> },
    Finished { id: Seq<char>, output: OutputView },
    Removed,
    Failed,
}

impl View for State {
    type V = StateView;

    open spec fn view(&self) -> StateView {
        match self {
            State::Creating { retried } => StateView::Creating { retried: *retried },
            State::Pulling { cause } => StateView::Pulling { cause: cause@ },
            State::Created { id, copied } => StateView::Created { id: id@, copied: *copied },
            State::Started { id } => StateView::Started { id: id@ },
            State::Attached { id } => StateView::Attached { id: id@ },
            State::Finished { id, output } => StateView::Finished { id: id@, output: output@ },
            State::Removed => StateView::Removed,
            State::Failed => StateView::Failed,
        }
    }
}

/// What a run ended in: its result, and the error of the teardown where
/// the environment could not be destroyed. The error of a teardown does not
/// replace the result.
#[derive(Debug, Clone, PartialEq, Eq)]
pub struct Report {
    pub output: Output,
    pub teardown: Option<String>,
}

/// A `Report` with its texts as sequences of characters.
pub struct ReportView {
    pub output: OutputView,
    pub teardown: Option<Seq<char>>,
}

impl View for Report {
    type V = ReportView;

    open spec fn view(&self) -> ReportView {
        ReportView {
            output: self.output@,
            teardown: match self.teardown {
                Some(message) => Some(message@),
                None => None,
            },
        }
    }
}

/// What the caller is asked to do next.
#[derive(Debug, Clone, PartialEq, Eq)]
pub enum Action {
    /// Create an environment.
    Create(Creation),
    /// Pull the image.
    Pull(String),
    /// Read `file` and copy it into the directory `dir` of the environment
    /// `id`, under its own name.
    Copy { id: String, file: StagedFile, dir: String },
    /// Start the environment `id`, attach to it and gather what it writes
    /// until it ends.
    Run { id: String },
    /// Read the text as the result of a run.
    Parse(String),
    /// Destroy the environment `id`.
    Destroy { id: String },
    /// The run is over.
    Finish(Report),
    /// The run was over before.
    Nothing,
}

/// An `Action` with its texts as sequences of characters.
pub enum ActionView {
    Create(CreationView),
    Pull(Seq<char>),
    Copy { id: Seq<char>, file: StagedFile, dir: Seq<char> },
    Run { id: Seq<char> },
    Parse(Seq<char>),
    Destroy { id: Seq<char> },
    Finish(ReportView),
    Nothing,
}

impl View for Action {
    type V = ActionView;

    open spec fn view(&self) -> ActionView {
        match self {
            Action::Create(creation) => ActionView::Create(creation@),
            Action::Pull(image) => ActionView::Pull(image@),
            Action::Copy { id, file, dir } => ActionView::Copy { id: id@, file: *file, dir: dir@ },
            Action::Run { id } => ActionView::Run { id: id@ },
            Action::Parse(text) => ActionView::Parse(text@),
            Action::Destroy { id } => ActionView::Destroy { id: id@ },
            Action::Finish(report) => ActionView::Finish(report@),
            Action::Nothing => ActionView::Nothing,
        }
    }
}

/// What is said of an event that does not answer the action asked for.
pub open spec fn out_of_turn() -> Seq<char> {
    "The sandbox answered out of turn."@
}

/// What is said of an image that could not be pulled for the reason
/// `detail`.
pub open spec fn pull_failed(detail: Seq<char>) -> Seq<char> {
    "Could not even pull image."@ + detail
}

/// What is said when what an environment wrote could not be had for the
/// reason `detail`.
pub open spec fn logs_failed(detail: Seq<char>) -> Seq<char> {
    "Could not get the logs from docker container in the current system: "@ + detail
}

/// The path that a file named `name` gets in the directory `dir` of an
/// environment.
pub open spec fn staged_path(dir: Seq<char>, name: Seq<char>) -> Seq<char> {
    dir + "/"@ + name
}

/// The path that a file named `name` gets in the directory `dir` of an
/// environment.
pub fn target(dir: &str, name: &str) -> (path: String)
    ensures
        path@ == staged_path(dir@, name@),
{
    dir.to_string().concat("/").concat(name)
}

/// A checker that runs inside a sandbox: the command that the environment
/// runs, and where things lie in it.
#[derive(Debug, Clone, PartialEq, Eq)]
pub struct SandboxedChecker {
    pub command: Vec<String>,
    pub config: SandboxConfig,
}

/// The end of a run that has no environment: it ends in `message`, and
/// nothing is left to destroy.
pub open spec fn aborted(message: Seq<char>) -> (StateView, ActionView) {
    (
        StateView::Failed,
        ActionView::Finish(ReportView { output: OutputView::Error(message), teardown: None }),
    )
}

/// The step of a run whose result is known: the environment `id` is
/// destroyed next.
pub open spec fn finishing(id: Seq<char>, output: OutputView) -> (StateView, ActionView) {
    (StateView::Finished { id, output }, ActionView::Destroy { id })
}

/// The end of a run after its teardown: the result is kept, and the error
/// of the teardown stands beside it.
pub open spec fn ended(output: OutputView, teardown: Option<Seq<char>>) -> (StateView, ActionView) {
    (
        match output {
            OutputView::Error(_) => StateView::Failed,
            OutputView::Tests(_) => StateView::Removed,
        },
        ActionView::Finish(ReportView { output, teardown }),
    )
}

impl SandboxedChecker {
    /// A checker that has its environments run `command`.
    pub fn new(command: Vec<String>, config: SandboxConfig) -> (checker: Self)
        ensures
            checker.command == command,
            checker.config == config,
    {
        Self { command, config }
    }

    /// The request for the environment of a run.
    pub fn creation(&self) -> (creation: Creation)
        ensures
            creation@ == creation_of(self.config.image@, self.config.limits, texts(self.command@)),
    {
        Creation {
            image: self.config.image.clone(),
            command: self.command.clone(),
            memory: self.config.limits.memory,
            memory_swap: self.config.limits.memory_swap,
            nano_cpus: self.config.limits.nano_cpus,
            privileged: false,
            attach_stdin: false,
            attach_stdout: true,
            attach_stderr: true,
        }
    }

    /// The copy of the file that comes after `copied` others.
    pub open spec fn copy_at(self, staging: Staging, id: Seq<char>, copied: int) -> (
        StateView,
        ActionView,
    ) {
        (
            StateView::Created { id, copied: copied as usize },
            ActionView::Copy {
                id,
                file: staging.file_at(copied),
                dir: directory_of(self.config, staging.file_at(copied)),
            },
        )
    }

    /// The first step of a run: an environment is asked for.
    pub open spec fn first(self) -> (StateView, ActionView) {
        (
            StateView::Creating { retried: false },
            ActionView::Create(
                creation_of(self.config.image@, self.config.limits, texts(self.command@)),
            ),
        )
    }

    /// The step that follows `state` when `event` is reported: the state
    /// that the run is in then, and the action that is asked for.
    ///
    /// A creation that fails because the image is not known is followed by
    /// one pull and one more creation; any other failure before there is an
    /// environment ends the run. Once there is an environment, the files
    /// are copied in their order, the environment is run, and what it wrote
    /// to its output is read as the result unless it wrote to its errors,
    /// which are the result then. Whatever fails on that way is the result,
    /// and in every case the environment is destroyed before the run ends.
    /// An event that does not answer the action asked for counts as a
    /// failure of that action.
    pub open spec fn next(self, staging: Staging, state: StateView, event: Event) -> (
        StateView,
        ActionView,
    ) {
        match state {
            StateView::Creating { retried } => match event {
                Event::Created(id) => self.copy_at(staging, id@, 0),
                Event::CreateFailed { not_found, message } => if not_found && !retried {
                    (StateView::Pulling { cause: message@ }, ActionView::Pull(self.config.image@))
                } else {
                    aborted(message@)
                },
                _ => aborted(out_of_turn()),
            },
            StateView::Pulling { cause } => match event {
                Event::Pulled => (
                    StateView::Creating { retried: true },
                    ActionView::Create(
                creation_of(self.config.image@, self.config.limits, texts(self.command@)),
            ),
                ),
                Event::PullFailed(detail) => aborted(pull_failed(detail@)),
                Event::PullEnded => aborted(cause),
                _ => aborted(out_of_turn()),
            },
            StateView::Created { id, copied } => match event {
                Event::Copied => if copied + 1 < staging.total() {
                    self.copy_at(staging, id, copied + 1)
                } else {
                    (StateView::Started { id }, ActionView::Run { id })
                },
                Event::CopyFailed(message) => finishing(id, OutputView::Error(message@)),
                _ => finishing(id, OutputView::Error(out_of_turn())),
            },
            StateView::Started { id } => match event {
                Event::Ran(chunks) => if written_err(chunks@).len() > 0 {
                    finishing(id, OutputView::Error(written_err(chunks@)))
                } else {
                    (StateView::Attached { id }, ActionView::Parse(written_out(chunks@)))
                },
                Event::StartFailed(message) => finishing(id, OutputView::Error(message@)),
                Event::LogsFailed(detail) => finishing(id, OutputView::Error(logs_failed(detail@))),
                _ => finishing(id, OutputView::Error(out_of_turn())),
            },
            StateView::Attached { id } => match event {
                Event::Parsed(output) => finishing(id, output@),
                Event::ParseFailed(message) => finishing(id, OutputView::Error(message@)),
                _ => finishing(id, OutputView::Error(out_of_turn())),
            },
            StateView::Finished { id, output } => match event {
                Event::Destroyed => ended(output, None),
                Event::DestroyFailed(message) => ended(output, Some(message@)),
                _ => ended(output, Some(out_of_turn())),
            },
            StateView::Removed => (StateView::Removed, ActionView::Nothing),
            StateView::Failed => (StateView::Failed, ActionView::Nothing),
        }
    }

    /// Begins a run.
    pub fn start(&self) -> (step: (State, Action))
        ensures
            (step.0@, step.1@) == self.first(),
    {
        (State::Creating { retried: false }, Action::Create(self.creation()))
    }

    /// The copy of the file that comes after `copied` others.
    fn copy(&self, staging: &Staging, id: String, copied: usize) -> (step: (State, Action))
        requires
            copied < staging.total(),
        ensures
            (step.0@, step.1@) == self.copy_at(*staging, id@, copied as int),
    {
        let (file, dir) = if copied < staging.ins {
            (StagedFile::Input(copied), self.config.ins.clone())
        } else if copied - staging.ins < staging.refs {
            (StagedFile::Reference(copied - staging.ins), self.config.refs.clone())
        } else if copied - staging.ins == staging.refs {
            (StagedFile::Config, self.config.cfg.clone())
        } else {
            (StagedFile::Solution, self.config.src.clone())
        };
        (State::Created { id: id.clone(), copied }, Action::Copy { id, file, dir })
    }

    /// Takes the step that follows `state` when `event` is reported.
    pub fn step(&self, staging: &Staging, state: State, event: Event) -> (step: (State, Action))
        requires
            staging.total() <= usize::MAX,
        ensures
            (step.0@, step.1@) == self.next(*staging, state@, event),
    {
        match state {
            State::Creating { retried } => match event {
                Event::Created(id) => self.copy(staging, id, 0),
                Event::CreateFailed { not_found, message } => {
                    if not_found && !retried {
                        (State::Pulling { cause: message }, Action::Pull(self.config.image.clone()))
                    } else {
                        abort(message)
                    }
                },
                _ => abort(unexpected()),
            },
            State::Pulling { cause } => match event {
                Event::Pulled => (
                    State::Creating { retried: true },
                    Action::Create(self.creation()),
                ),
                Event::PullFailed(detail) => abort(
                    "Could not even pull image.".to_string().concat(detail.as_str()),
                ),
                Event::PullEnded => abort(cause),
                _ => abort(unexpected()),
            },
            State::Created { id, copied } => match event {
                Event::Copied => {
                    if copied < staging.ins || copied - staging.ins <= staging.refs {
                        self.copy(staging, id, copied + 1)
                    } else {
                        (State::Started { id: id.clone() }, Action::Run { id })
                    }
                },
                Event::CopyFailed(message) => finish(id, Output::Error(message)),
                _ => finish(id, Output::Error(unexpected())),
            },
            State::Started { id } => match event {
                Event::Ran(chunks) => {
                    let (out, err) = gather(&chunks);
                    if err.as_str().unicode_len() > 0 {
                        finish(id, Output::Error(err))
                    } else {
                        (State::Attached { id }, Action::Parse(out))
                    }
                },
                Event::StartFailed(message) => finish(id, Output::Error(message)),
                Event::LogsFailed(detail) => finish(
                    id,
                    Output::Error(
                        "Could not get the logs from docker container in the current system: ".to_string().concat(
                            detail.as_str(),
                        ),
                    ),
                ),
                _ => finish(id, Output::Error(unexpected())),
            },
            State::Attached { id } => match event {
                Event::Parsed(output) => finish(id, output),
                Event::ParseFailed(message) => finish(id, Output::Error(message)),
                _ => finish(id, Output::Error(unexpected())),
            },
            State::Finished { id, output } => match event {
                Event::Destroyed => end(output, None),
                Event::DestroyFailed(message) => end(output, Some(message)),
                _ => end(output, Some(unexpected())),
            },
            State::Removed => (State::Removed, Action::Nothing),
            State::Failed => (State::Failed, Action::Nothing),
        }
    }
}

/// What is said of an event that does not answer the action asked for.
fn unexpected() -> (message: String)
    ensures
        message@ == out_of_turn(),
{
    "The sandbox answered out of turn.".to_string()
}

/// Ends a run that has no environment.
fn abort(message: String) -> (step: (State, Action))
    ensures
        (step.0@, step.1@) == aborted(message@),
{
    (State::Failed, Action::Finish(Report { output: Output::Error(message), teardown: None }))
}

/// Has the environment `id` destroyed, now that the result is known.
fn finish(id: String, output: Output) -> (step: (State, Action))
    ensures
        (step.0@, step.1@) == finishing(id@, output@),
{
    (State::Finished { id: id.clone(), output }, Action::Destroy { id })
}

/// Ends a run after its teardown.
fn end(output: Output, teardown: Option<String>) -> (step: (State, Action))
    ensures
        (step.0@, step.1@) == ended(
            output@,
            match teardown {
                Some(message) => Some(message@),
                None => None,
            },
        ),
{
    let state = match &output {
        Output::Error(_) => State::Failed,
        Output::Tests(_) => State::Removed,
    };
    (state, Action::Finish(Report { output, teardown }))
}

} // verus!

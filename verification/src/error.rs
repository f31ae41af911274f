//! Errors of the checker, by the stage at which they arise.

use vstd::prelude::*;

verus! {

#[verifier::external_type_specification]
#[verifier::external_body]
pub struct ExIoError(std::io::Error);

/// Stages at which the checker can fail.
#[derive(Debug, Clone, Copy, PartialEq, Eq, Structural)]
pub enum CheckerStage {
    Precheck,
    Build,
    Execution,
    Diff,
}

impl CheckerStage {
    /// The name under which the stage appears in messages.
    pub open spec fn name(self) -> Seq<char> {
        match self {
            CheckerStage::Precheck => "Precheck"@,
            CheckerStage::Build => "Build"@,
            CheckerStage::Execution => "Execution"@,
            CheckerStage::Diff => "Diff"@,
        }
    }

    /// The stage's name as text.
    pub fn to_string(&self) -> (text: String)
        ensures
            text@ == self.name(),
    {
        match self {
            CheckerStage::Precheck => "Precheck".to_string(),
            CheckerStage::Build => "Build".to_string(),
            CheckerStage::Execution => "Execution".to_string(),
            CheckerStage::Diff => "Diff".to_string(),
        }
    }
}

/// What an error of `stage` says when it has a message, a cause whose text is
/// `cause`, or neither. A message takes precedence over a cause.
pub open spec fn rendered(stage: CheckerStage, cause: Option<Seq<char>>, message: Option<Seq<char>>) -> Seq<char> {
    match (cause, message) {
        (_, Some(m)) => stage.name() + " failed: "@ + m,
        (Some(c), None) => stage.name() + " failed from: "@ + c,
        (None, None) => stage.name() + " failed"@,
    }
}

/// Renders an error of `stage` from the text of its cause and its message.
pub fn render(stage: CheckerStage, cause: Option<&str>, message: Option<&str>) -> (text: String)
    ensures
        text@ == rendered(
            stage,
            match cause { Some(c) => Some(c@), None => None },
            match message { Some(m) => Some(m@), None => None },
        ),
{
    let mut text = stage.to_string();
    match (cause, message) {
        (_, Some(m)) => {
            text.append(" failed: ");
            text.append(m);
        },
        (Some(c), None) => {
            text.append(" failed from: ");
            text.append(c);
        },
        (None, None) => {
            text.append(" failed");
        },
    }
    text
}

/// An error of one stage of the checker. It carries an underlying cause or a
/// message, never both.
#[derive(Debug)]
pub struct CheckerError {
    stage: CheckerStage,
    source: Option<std::io::Error>,
    message: Option<String>,
}

impl CheckerError {
    #[verifier::type_invariant]
    spec fn well_formed(self) -> bool {
        !(self.source is Some && self.message is Some)
    }

    /// The stage at which the error arose.
    pub closed spec fn spec_stage(self) -> CheckerStage {
        self.stage
    }

    /// The underlying cause of the error, if it has one.
    pub closed spec fn spec_source(self) -> Option<std::io::Error> {
        self.source
    }

    /// Whether the error carries an underlying cause.
    pub open spec fn has_source(self) -> bool {
        self.spec_source() is Some
    }

    /// The message of the error, if it has one.
    pub closed spec fn spec_message(self) -> Option<Seq<char>> {
        match self.message {
            Some(m) => Some(m@),
            None => None,
        }
    }

    /// An error of `stage` with neither cause nor message.
    pub fn new(stage: CheckerStage) -> (error: Self)
        ensures
            error.spec_stage() == stage,
            error.spec_source() is None,
            error.spec_message() is None,
    {
        Self { stage, source: None, message: None }
    }

    /// Attaches `source` as the cause, unless the error has a message already.
    pub fn with_source(self, source: std::io::Error) -> (error: Self)
        ensures
            error.spec_stage() == self.spec_stage(),
            error.spec_message() == self.spec_message(),
            error.spec_source() == if self.spec_message() is None {
                Some(source)
            } else {
                None
            },
    {
        proof {
            use_type_invariant(&self);
        }
        let CheckerError { stage, source: old_source, message } = self;
        if message.is_none() {
            CheckerError { stage, source: Some(source), message }
        } else {
            CheckerError { stage, source: old_source, message }
        }
    }
}

impl CheckerError {
    /// Sets `message`, unless the error has a cause already.
    pub fn with_message(self, message: &str) -> (error: Self)
        ensures
            error.spec_stage() == self.spec_stage(),
            error.spec_source() == self.spec_source(),
            error.spec_message() == if self.has_source() {
                self.spec_message()
            } else {
                Some(message@)
            },
    {
        proof {
            use_type_invariant(&self);
        }
        let CheckerError { stage, source, message: old_message } = self;
        if source.is_none() {
            CheckerError { stage, source, message: Some(message.to_string()) }
        } else {
            CheckerError { stage, source, message: old_message }
        }
    }

    /// The stage at which the error arose.
    pub fn stage(&self) -> (stage: CheckerStage)
        ensures
            stage == self.spec_stage(),
    {
        self.stage
    }

    /// The underlying cause, if the error has one.
    pub fn source(&self) -> (source: Option<&std::io::Error>)
        ensures
            match source {
                Some(cause) => self.spec_source() == Some(*cause),
                None => self.spec_source() is None,
            },
    {
        self.source.as_ref()
    }

    /// The message, if the error has one.
    pub fn message(&self) -> (message: Option<&String>)
        ensures
            match message {
                Some(m) => self.spec_message() == Some(m@),
                None => self.spec_message() is None,
            },
    {
        self.message.as_ref()
    }

    /// The error as one line of text.
    pub fn to_string(&self) -> (text: String)
        ensures
            !self.has_source() ==> text@ == rendered(self.spec_stage(), None, self.spec_message()),
            self.has_source() ==> self.spec_message() is None && exists|cause: String|
                vstd::string::to_string_from_display_ensures::<std::io::Error>(
                    &self.spec_source()->0,
                    cause,
                ) && text@ == rendered(self.spec_stage(), Some(cause@), None),
    {
        proof {
            use_type_invariant(self);
        }
        match (&self.source, &self.message) {
            (Some(source), _) => {
                let cause = source.to_string();
                render(self.stage, Some(cause.as_str()), None)
            },
            (None, Some(message)) => render(self.stage, None, Some(message.as_str())),
            (None, None) => render(self.stage, None, None),
        }
    }
}

} // verus!

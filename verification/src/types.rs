//! Core value types of the session engine: statuses, execution modes,
//! step outcomes and progress records, and the error taxonomy.

use vstd::prelude::*;

verus! {

/// Lifecycle status of a session.
///
/// `Initializing` is the initial status; `Completed`, `Failed` and
/// `Cancelled` are terminal.
#[derive(Clone, Copy, Debug, PartialEq, Eq, Structural)]
pub enum Status {
    Initializing,
    Running,
    Cancelling,
    Completed,
    Failed,
    Cancelled,
}

/// Whether a status is terminal: once reached, no transition leaves it.
pub open spec fn is_terminal(s: Status) -> bool {
    s == Status::Completed || s == Status::Failed || s == Status::Cancelled
}

impl Status {
    /// Executable terminal-status test.
    pub fn is_terminal(&self) -> (b: bool)
        ensures
            b == is_terminal(*self),
    {
        *self == Status::Completed || *self == Status::Failed || *self == Status::Cancelled
    }
}

/// Execution strategy selector of a session, immutable for its lifetime.
#[derive(Clone, Copy, Debug, PartialEq, Eq, Structural)]
pub enum Mode {
    Default,
}

/// The mode strings the engine recognizes.
pub open spec fn valid_mode(s: Seq<char>) -> bool {
    s == "default"@
}

impl Mode {
    /// Parses a caller-supplied mode string; `None` on an unrecognized mode.
    pub fn parse(s: &String) -> (r: Option<Mode>)
        ensures
            r is Some <==> valid_mode(s@),
            r is Some ==> r == Some(Mode::Default),
    {
        let default_name: String = "default".to_owned();
        if *s == default_name {
            Some(Mode::Default)
        } else {
            None
        }
    }
}

/// The outcome the window collaborator reports for one executed step.
pub struct StepOutcome {
    /// Whether the step succeeded.
    pub success: bool,
    /// A description of what happened: the step's result, or the
    /// collaborator's error message on failure.
    pub detail: String,
}

/// One entry of a session's append-only progress log.
pub struct StepRecord {
    /// Position of the step in the plan; the log is ordered, so the
    /// `i`-th record always carries index `i`.
    pub index: usize,
    /// Description of the successfully executed step.
    pub detail: String,
}

/// Mathematical model of a progress record.
pub struct RecordView {
    pub index: nat,
    pub detail: Seq<char>,
}

impl View for StepRecord {
    type V = RecordView;

    open spec fn view(&self) -> RecordView {
        RecordView { index: self.index as nat, detail: self.detail@ }
    }
}

impl Clone for StepRecord {
    fn clone(&self) -> (r: Self)
        ensures
            r == *self,
    {
        StepRecord { index: self.index, detail: self.detail.clone() }
    }
}

/// Errors surfaced by the engine's API.
///
/// A step failure reported by the window collaborator is not an error of
/// the API: it is recorded in the session's state as `last_error` and a
/// `Failed` status.
#[derive(Clone, Copy, Debug, PartialEq, Eq, Structural)]
pub enum SessionError {
    /// The instruction was rejected at construction (empty).
    InvalidInstruction,
    /// The mode string was not recognized at construction.
    InvalidMode,
    /// Cooperative cancellation did not complete within the bounded wait.
    CancelTimeout,
    /// A dependency needed to start the session could not be engaged.
    SessionStart,
}

} // verus!

//! One automation session: its state machine, the driver's step loop,
//! and the cooperative cancellation protocol.
//!
//! The session's behaviour is modelled by pure transition functions over
//! [`SessionView`]; every executable operation is proved to realize its
//! transition.  The asynchronous runtime around the library performs the
//! waiting and the window calls and feeds their results in as plain
//! values: the driver's boundary events are [`Session::begin`],
//! [`Session::record_step`] and [`Session::observe_cancel`], and the
//! requester's side is [`Session::request_cancel`] /
//! [`Session::finish_cancel`].

use vstd::prelude::*;

use crate::state::AutomationState;
use crate::state::StateView;
use crate::types::Mode;
use crate::types::RecordView;
use crate::types::SessionError;
use crate::types::Status;
use crate::types::StepOutcome;
use crate::types::StepRecord;
use crate::types::is_terminal;
use crate::types::valid_mode;

verus! {

/// Mathematical model of a session.
#[verifier::ext_equal]
pub struct SessionView {
    pub session_id: Seq<char>,
    pub instruction: Seq<char>,
    pub mode: Mode,
    pub status: Status,
    pub progress: Seq<RecordView>,
    pub last_error: Option<Seq<char>>,
    pub cancel_requested: bool,
    pub planned_steps: nat,
}

/// The state of a freshly constructed session.
pub open spec fn fresh_view(session_id: Seq<char>, instruction: Seq<char>, mode: Mode) -> SessionView {
    SessionView {
        session_id,
        instruction,
        mode,
        status: Status::Initializing,
        progress: Seq::empty(),
        last_error: None,
        cancel_requested: false,
        planned_steps: 0,
    }
}

/// Driver start: the plan has been interpreted into `n` steps.  An empty
/// plan is exhausted at once and completes without entering `Running`.
pub open spec fn begin_tr(v: SessionView, n: nat) -> SessionView {
    if v.status != Status::Initializing {
        v
    } else if n == 0 {
        SessionView { status: Status::Completed, planned_steps: 0, ..v }
    } else {
        SessionView { status: Status::Running, planned_steps: n, ..v }
    }
}

/// The window collaborator reported the outcome of one step.  A failure
/// moves the session to `Failed` with the collaborator's error attached;
/// a success appends a progress record, completing the session when the
/// plan is exhausted.  A step outcome arriving in any other status is
/// ignored.
pub open spec fn record_tr(v: SessionView, success: bool, detail: Seq<char>) -> SessionView {
    if (v.status == Status::Running || v.status == Status::Cancelling)
        && v.progress.len() < v.planned_steps {
        if !success {
            SessionView { status: Status::Failed, last_error: Some(detail), ..v }
        } else {
            let extended = v.progress.push(RecordView { index: v.progress.len(), detail });
            if extended.len() == v.planned_steps {
                SessionView { status: Status::Completed, progress: extended, ..v }
            } else {
                SessionView { progress: extended, ..v }
            }
        }
    } else {
        v
    }
}

/// A cancellation request: a no-op on a terminal session, otherwise the
/// status becomes `Cancelling` and the driver's token is signalled.
pub open spec fn request_tr(v: SessionView) -> SessionView {
    if is_terminal(v.status) {
        v
    } else {
        SessionView { status: Status::Cancelling, cancel_requested: true, ..v }
    }
}

/// The driver observed the signalled token at a step boundary and
/// unwound: the session becomes `Cancelled`.
pub open spec fn ack_tr(v: SessionView) -> SessionView {
    if v.cancel_requested && !is_terminal(v.status) {
        SessionView { status: Status::Cancelled, ..v }
    } else {
        v
    }
}

/// The bounded wait for cancellation elapsed without the driver reaching
/// a terminal status: the session falls back to its pre-cancellation
/// status (`Running`, or `Initializing` if the driver had not started).
/// The token stays signalled, so a driver that checks it later still
/// cancels.
pub open spec fn timeout_tr(v: SessionView) -> SessionView {
    if v.status == Status::Cancelling {
        if v.planned_steps == 0 {
            SessionView { status: Status::Initializing, ..v }
        } else {
            SessionView { status: Status::Running, ..v }
        }
    } else {
        v
    }
}

/// Well-formedness of a session's state, established by construction and
/// preserved by every transition.
pub open spec fn view_wf(v: SessionView) -> bool {
    &&& v.instruction.len() > 0
    &&& (v.last_error is Some <==> v.status == Status::Failed)
    &&& (v.status == Status::Initializing ==> v.progress.len() == 0 && v.planned_steps == 0)
    &&& (v.status == Status::Running ==> v.progress.len() < v.planned_steps)
    &&& (v.status == Status::Cancelling ==> v.cancel_requested
        && (v.progress.len() < v.planned_steps || (v.planned_steps == 0 && v.progress.len() == 0)))
    &&& (v.status == Status::Completed ==> v.progress.len() == v.planned_steps)
    &&& (v.status == Status::Failed ==> v.progress.len() <= v.planned_steps)
    &&& (v.status == Status::Cancelled ==> v.progress.len() <= v.planned_steps && v.cancel_requested)
    &&& (forall|i: int| 0 <= i < v.progress.len() ==> (#[trigger] v.progress[i]).index == i)
}

/// One automation task: identity, instruction and mode fixed at
/// construction, a mutable status, an append-only progress log, and the
/// cooperative cancellation token shared with the driver.
pub struct Session {
    pub session_id: String,
    pub instruction: String,
    pub mode: Mode,
    pub status: Status,
    pub progress: Vec<StepRecord>,
    pub last_error: Option<String>,
    pub cancel_requested: bool,
    pub planned_steps: usize,
}

impl View for Session {
    type V = SessionView;

    open spec fn view(&self) -> SessionView {
        SessionView {
            session_id: self.session_id@,
            instruction: self.instruction@,
            mode: self.mode,
            status: self.status,
            progress: self.progress@.map(|i: int, r: StepRecord| r@),
            last_error: match self.last_error {
                Some(e) => Some(e@),
                None => None,
            },
            cancel_requested: self.cancel_requested,
            planned_steps: self.planned_steps as nat,
        }
    }
}

/// Projection of a session's state into the snapshot served to observers.
pub open spec fn state_of(v: SessionView) -> StateView {
    StateView {
        session_id: v.session_id,
        status: v.status,
        progress: v.progress,
        last_error: v.last_error,
    }
}

impl Session {
    pub open spec fn wf(self) -> bool {
        view_wf(self@)
    }

    /// Validates the inputs and constructs a session in `Initializing`.
    ///
    /// The driver is spawned on the fresh session by the runtime around
    /// the library; the window collaborator it talks to is engaged there
    /// as well.
    pub fn new(session_id: String, instruction: String, mode: String) -> (r: Result<Session, SessionError>)
        ensures
            r is Ok <==> instruction@.len() > 0 && valid_mode(mode@),
            instruction@.len() == 0 ==> r == Err::<Session, SessionError>(SessionError::InvalidInstruction),
            instruction@.len() > 0 && !valid_mode(mode@)
                ==> r == Err::<Session, SessionError>(SessionError::InvalidMode),
            r matches Ok(s) ==> s@ == fresh_view(session_id@, instruction@, Mode::Default) && s.wf(),
    {
        if instruction.as_str().is_empty() {
            return Err(SessionError::InvalidInstruction);
        }
        let mode = match Mode::parse(&mode) {
            Some(m) => m,
            None => {
                return Err(SessionError::InvalidMode);
            },
        };
        let session = Session {
            session_id,
            instruction,
            mode,
            status: Status::Initializing,
            progress: Vec::new(),
            last_error: None,
            cancel_requested: false,
            planned_steps: 0,
        };
        proof {
            assert(session@ =~= fresh_view(session.session_id@, session.instruction@, Mode::Default));
        }
        Ok(session)
    }

    /// Copies the current status, progress and error into a snapshot.
    ///
    /// The runtime takes the session's guard for the duration of this
    /// call, so the copy is made from one consistent state.
    pub fn get_state(&self) -> (st: AutomationState)
        ensures
            st@ == state_of(self@),
    {
        let mut progress_copy: Vec<StepRecord> = Vec::new();
        let mut i: usize = 0;
        while i < self.progress.len()
            invariant
                i <= self.progress.len(),
                progress_copy@.len() == i as int,
                forall|k: int| 0 <= k < i ==> progress_copy@[k] == self.progress@[k],
            decreases self.progress.len() - i,
        {
            let record = StepRecord {
                index: self.progress[i].index,
                detail: self.progress[i].detail.clone(),
            };
            progress_copy.push(record);
            i = i + 1;
        }
        let last_error = match &self.last_error {
            Some(e) => Some(e.clone()),
            None => None,
        };
        let st = AutomationState {
            session_id: self.session_id.clone(),
            status: self.status,
            progress: progress_copy,
            last_error,
        };
        proof {
            assert(st.progress@ =~= self.progress@);
            assert(st@ =~= state_of(self@));
        }
        st
    }

    /// Driver start event: the plan was interpreted into `planned_steps`
    /// steps.
    pub fn begin(&mut self, planned_steps: usize)
        requires
            old(self).wf(),
        ensures
            final(self)@ == begin_tr(old(self)@, planned_steps as nat),
            final(self).wf(),
    {
        if self.status == Status::Initializing {
            self.planned_steps = planned_steps;
            if planned_steps == 0 {
                self.status = Status::Completed;
            } else {
                self.status = Status::Running;
            }
            proof {
                assert(self@ =~= begin_tr(old(self)@, planned_steps as nat));
            }
        }
    }

    /// Driver step event: the window collaborator reported one step's
    /// outcome.
    pub fn record_step(&mut self, success: bool, detail: String)
        requires
            old(self).wf(),
        ensures
            final(self)@ == record_tr(old(self)@, success, detail@),
            final(self).wf(),
    {
        let ghost d: Seq<char> = detail@;
        if (self.status == Status::Running || self.status == Status::Cancelling)
            && self.progress.len() < self.planned_steps {
            if !success {
                self.status = Status::Failed;
                self.last_error = Some(detail);
                proof {
                    assert(self@ =~= record_tr(old(self)@, success, d));
                }
            } else {
                let index = self.progress.len();
                self.progress.push(StepRecord { index, detail });
                if self.progress.len() == self.planned_steps {
                    self.status = Status::Completed;
                }
                proof {
                    assert(self@.progress =~= record_tr(old(self)@, success, d).progress);
                    assert(self@ =~= record_tr(old(self)@, success, d));
                }
            }
        }
    }

    /// Driver cancellation event: the driver observed the signalled token
    /// at a step boundary and unwound.
    pub fn observe_cancel(&mut self)
        requires
            old(self).wf(),
        ensures
            final(self)@ == ack_tr(old(self)@),
            final(self).wf(),
    {
        if self.cancel_requested && !self.status.is_terminal() {
            self.status = Status::Cancelled;
            proof {
                assert(self@ =~= ack_tr(old(self)@));
            }
        }
    }

    /// Requests cooperative cancellation.  On a session already in a
    /// terminal status this is a no-op that needs no wait; otherwise the
    /// status becomes `Cancelling`, the token is signalled, and the
    /// caller must wait (bounded) for the driver before calling
    /// [`Session::finish_cancel`].
    pub fn request_cancel(&mut self) -> (needs_wait: bool)
        requires
            old(self).wf(),
        ensures
            final(self)@ == request_tr(old(self)@),
            final(self).wf(),
            needs_wait == !is_terminal(old(self)@.status),
    {
        if self.status.is_terminal() {
            false
        } else {
            self.status = Status::Cancelling;
            self.cancel_requested = true;
            proof {
                assert(self@ =~= request_tr(old(self)@));
            }
            true
        }
    }

    /// Concludes a cancellation round after the bounded wait.  Succeeds
    /// exactly when the driver reached a terminal status; otherwise the
    /// session falls back to its pre-cancellation status and the call
    /// reports `CancelTimeout` — the driver is never forcibly killed, so
    /// it may still be running detached.
    pub fn finish_cancel(&mut self) -> (r: Result<(), SessionError>)
        requires
            old(self).wf(),
        ensures
            final(self)@ == timeout_tr(old(self)@),
            final(self).wf(),
            r is Ok <==> is_terminal(old(self)@.status),
            r is Err ==> r == Err::<(), SessionError>(SessionError::CancelTimeout),
    {
        if self.status.is_terminal() {
            Ok(())
        } else {
            if self.status == Status::Cancelling {
                if self.planned_steps == 0 {
                    self.status = Status::Initializing;
                } else {
                    self.status = Status::Running;
                }
                proof {
                    assert(self@ =~= timeout_tr(old(self)@));
                }
            }
            Err(SessionError::CancelTimeout)
        }
    }

    /// Runs the driver's whole loop against a plan whose per-step window
    /// outcomes are given: checks the token at the first boundary, starts
    /// the plan, and issues steps until a failure, the end of the plan,
    /// or nothing is left to do.  A runtime that awaits the window one
    /// step at a time calls [`Session::begin`], [`Session::record_step`]
    /// and [`Session::observe_cancel`] itself instead.
    pub fn run_driver(&mut self, outcomes: &Vec<StepOutcome>)
        requires
            old(self).wf(),
            old(self)@.status == Status::Initializing || old(self)@.status == Status::Cancelling,
        ensures
            final(self).wf(),
            old(self)@.cancel_requested ==> final(self)@ == ack_tr(old(self)@),
            !old(self)@.cancel_requested ==> {
                let n = outcomes@.len();
                let v = final(self)@;
                &&& v.session_id == old(self)@.session_id
                &&& v.instruction == old(self)@.instruction
                &&& v.mode == old(self)@.mode
                &&& v.cancel_requested == old(self)@.cancel_requested
                &&& v.planned_steps == n
                &&& (forall|j: int| 0 <= j < n ==> (#[trigger] outcomes@[j]).success)
                    ==> v.status == Status::Completed && v.progress.len() == n
                &&& forall|k: int| #![trigger outcomes@[k]]
                    0 <= k < n && !outcomes@[k].success
                        && (forall|j: int| 0 <= j < k ==> (#[trigger] outcomes@[j]).success)
                    ==> v.status == Status::Failed
                        && v.progress.len() == k
                        && v.last_error == Some(outcomes@[k].detail@)
                &&& forall|i: int| 0 <= i < v.progress.len()
                    ==> (#[trigger] v.progress[i]).index == i
                        && v.progress[i].detail == outcomes@[i].detail@
            },
    {
        if self.cancel_requested {
            self.observe_cancel();
            return;
        }
        self.begin(outcomes.len());
        let mut i: usize = 0;
        while i < outcomes.len() && self.status == Status::Running
            invariant
                self.wf(),
                i <= outcomes.len(),
                self@.planned_steps == outcomes@.len(),
                self@.session_id == old(self)@.session_id,
                self@.instruction == old(self)@.instruction,
                self@.mode == old(self)@.mode,
                self@.cancel_requested == old(self)@.cancel_requested,
                !self@.cancel_requested,
                self@.status == Status::Running || self@.status == Status::Completed
                    || self@.status == Status::Failed,
                self@.status == Status::Running
                    ==> self@.progress.len() == i && i < outcomes@.len(),
                self@.status == Status::Completed
                    ==> i == outcomes@.len() && self@.progress.len() == i,
                self@.status == Status::Failed
                    ==> 1 <= i && self@.progress.len() == i - 1
                        && !outcomes@[i - 1].success
                        && self@.last_error == Some(outcomes@[i - 1].detail@),
                forall|j: int| 0 <= j < i && self@.progress.len() > j
                    ==> (#[trigger] outcomes@[j]).success,
                forall|j: int| 0 <= j < self@.progress.len()
                    ==> (#[trigger] self@.progress[j]).index == j
                        && self@.progress[j].detail == outcomes@[j].detail@,
            decreases outcomes.len() - i,
        {
            let success = outcomes[i].success;
            let detail = outcomes[i].detail.clone();
            self.record_step(success, detail);
            i = i + 1;
        }
    }
}

/// Stopping protocol law: requesting cancellation and having the driver
/// observe the token drives any well-formed session to a terminal
/// status.  The engine stops a prior session through exactly this
/// protocol before a new session is installed, so a replaced session is
/// terminal before its successor's driver starts.
pub proof fn lemma_stop_drives_terminal(v: SessionView)
    requires
        view_wf(v),
    ensures
        is_terminal(ack_tr(request_tr(v)).status),
        view_wf(ack_tr(request_tr(v))),
{
}

/// Terminal statuses are stable: no transition changes a session whose
/// status is terminal.  In particular a cancellation request on such a
/// session is a success without side effects, and a session never
/// regresses out of a terminal status.
pub proof fn lemma_terminal_stable(v: SessionView, n: nat, success: bool, detail: Seq<char>)
    requires
        is_terminal(v.status),
    ensures
        begin_tr(v, n) == v,
        record_tr(v, success, detail) == v,
        request_tr(v) == v,
        ack_tr(v) == v,
        timeout_tr(v) == v,
{
}

/// The progress log is append-only: every transition leaves the existing
/// records in place and at most appends to them.
pub proof fn lemma_progress_append_only(v: SessionView, n: nat, success: bool, detail: Seq<char>)
    ensures
        begin_tr(v, n).progress == v.progress,
        record_tr(v, success, detail).progress.len() >= v.progress.len(),
        forall|i: int| 0 <= i < v.progress.len()
            ==> record_tr(v, success, detail).progress[i] == v.progress[i],
        request_tr(v).progress == v.progress,
        ack_tr(v).progress == v.progress,
        timeout_tr(v).progress == v.progress,
{
}

/// How far along its lifecycle a status is.
pub open spec fn status_rank(s: Status) -> int {
    match s {
        Status::Initializing => 0,
        Status::Running => 1,
        Status::Cancelling => 2,
        Status::Completed => 3,
        Status::Failed => 3,
        Status::Cancelled => 3,
    }
}

/// Status monotonicity law: no transition moves a session's status
/// backwards, except the documented cancel-timeout fallback, which only
/// restores the pre-cancellation status of a `Cancelling` session.
pub proof fn lemma_status_monotone(v: SessionView, n: nat, success: bool, detail: Seq<char>)
    ensures
        status_rank(begin_tr(v, n).status) >= status_rank(v.status),
        status_rank(record_tr(v, success, detail).status) >= status_rank(v.status),
        status_rank(request_tr(v).status) >= status_rank(v.status),
        status_rank(ack_tr(v).status) >= status_rank(v.status),
        timeout_tr(v).status != v.status
            ==> v.status == Status::Cancelling
                && (timeout_tr(v).status == Status::Running
                    || timeout_tr(v).status == Status::Initializing),
{
}

/// Transitions preserve the session invariant.
pub proof fn lemma_transitions_preserve_wf(v: SessionView, n: nat, success: bool, detail: Seq<char>)
    requires
        view_wf(v),
    ensures
        view_wf(begin_tr(v, n)),
        view_wf(record_tr(v, success, detail)),
        view_wf(request_tr(v)),
        view_wf(ack_tr(v)),
        view_wf(timeout_tr(v)),
{
}

/// Snapshot consistency law: every snapshot taken of a well-formed
/// session is internally consistent — an observer never sees a `Failed`
/// status without its error, an error outside `Failed`, or a progress
/// log whose records are out of order.
pub proof fn lemma_snapshot_consistent(v: SessionView)
    requires
        view_wf(v),
    ensures
        crate::state::state_consistent(state_of(v)),
{
}

} // verus!

//! Point-in-time snapshots of a session's state, served to observers.

use vstd::prelude::*;

use crate::types::RecordView;
use crate::types::Status;
use crate::types::StepRecord;

verus! {

/// An immutable snapshot describing a session's status, progress and last
/// error at the instant of capture.  A snapshot is a value: it keeps no
/// tie back to the session it was taken from.
pub struct AutomationState {
    pub session_id: String,
    pub status: Status,
    pub progress: Vec<StepRecord>,
    pub last_error: Option<String>,
}

/// Mathematical model of a snapshot.
#[verifier::ext_equal]
pub struct StateView {
    pub session_id: Seq<char>,
    pub status: Status,
    pub progress: Seq<RecordView>,
    pub last_error: Option<Seq<char>>,
}

impl View for AutomationState {
    type V = StateView;

    open spec fn view(&self) -> StateView {
        StateView {
            session_id: self.session_id@,
            status: self.status,
            progress: self.progress@.map(|i: int, r: StepRecord| r@),
            last_error: match self.last_error {
                Some(e) => Some(e@),
                None => None,
            },
        }
    }
}

/// Internal consistency of a snapshot: what an observer may rely on,
/// however the capture was interleaved with driver updates.
pub open spec fn state_consistent(s: StateView) -> bool {
    &&& (s.last_error is Some <==> s.status == Status::Failed)
    &&& (s.status == Status::Initializing ==> s.progress.len() == 0)
    &&& (forall|i: int| 0 <= i < s.progress.len() ==> (#[trigger] s.progress[i]).index == i)
}

} // verus!

//! A verified session-automation engine.
//!
//! The library manages the lifecycle of an automated task (a "session")
//! that drives actions inside an application window on behalf of a
//! natural-language instruction.  The session state machine, the driver's
//! step loop, cancellation, and state snapshotting are verified; the
//! asynchronous plumbing that schedules the driver lives outside the
//! library and feeds events (step outcomes, cancellation observations)
//! into the verified transitions.

mod engine;
mod session;
mod state;
mod types;

pub use engine::AutomationEngine;
pub use session::Session;
pub use session::SessionView;
pub use session::ack_tr;
pub use session::begin_tr;
pub use session::fresh_view;
pub use session::lemma_progress_append_only;
pub use session::lemma_snapshot_consistent;
pub use session::lemma_status_monotone;
pub use session::lemma_stop_drives_terminal;
pub use session::lemma_terminal_stable;
pub use session::lemma_transitions_preserve_wf;
pub use session::record_tr;
pub use session::request_tr;
pub use session::state_of;
pub use session::status_rank;
pub use session::timeout_tr;
pub use session::view_wf;
pub use state::AutomationState;
pub use state::StateView;
pub use state::state_consistent;
pub use types::Mode;
pub use types::RecordView;
pub use types::SessionError;
pub use types::Status;
pub use types::StepOutcome;
pub use types::StepRecord;
pub use types::is_terminal;
pub use types::valid_mode;

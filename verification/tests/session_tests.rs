use automation_engine::Mode;
use automation_engine::SessionError;
use automation_engine::Session;
use automation_engine::Status;
use automation_engine::StepOutcome;
use automation_engine::StepRecord;

fn fresh(instruction: &str) -> Session {
    Session::new("s1".to_owned(), instruction.to_owned(), "default".to_owned()).unwrap()
}

fn outcome(success: bool, detail: &str) -> StepOutcome {
    StepOutcome { success, detail: detail.to_owned() }
}

#[test]
fn new_session_starts_initializing() {
    let session = fresh("click the button");
    assert_eq!(session.status, Status::Initializing);
    assert_eq!(session.session_id, "s1");
    assert_eq!(session.instruction, "click the button");
    assert_eq!(session.mode, Mode::Default);
    assert!(session.progress.is_empty());
    assert!(session.last_error.is_none());
    assert!(!session.cancel_requested);
}

#[test]
fn new_rejects_empty_instruction() {
    let r = Session::new("s1".to_owned(), "".to_owned(), "default".to_owned());
    assert!(matches!(r, Err(SessionError::InvalidInstruction)));
}

#[test]
fn new_rejects_unknown_mode() {
    let r = Session::new("s1".to_owned(), "click the button".to_owned(), "careful".to_owned());
    assert!(matches!(r, Err(SessionError::InvalidMode)));
}

#[test]
fn mode_parse_recognizes_default_only() {
    assert_eq!(Mode::parse(&"default".to_owned()), Some(Mode::Default));
    assert_eq!(Mode::parse(&"Default".to_owned()), None);
    assert_eq!(Mode::parse(&"".to_owned()), None);
}

#[test]
fn status_progresses_through_the_lifecycle() {
    let mut session = fresh("do two things");
    session.begin(2);
    assert_eq!(session.status, Status::Running);
    session.record_step(true, "one".to_owned());
    assert_eq!(session.status, Status::Running);
    session.record_step(true, "two".to_owned());
    assert_eq!(session.status, Status::Completed);
}

#[test]
fn empty_plan_completes_at_once() {
    let mut session = fresh("nothing to do");
    session.begin(0);
    assert_eq!(session.status, Status::Completed);
    assert!(session.progress.is_empty());
}

#[test]
fn failed_step_sets_last_error_and_stops() {
    let mut session = fresh("do two things");
    session.begin(2);
    session.record_step(false, "window went away".to_owned());
    assert_eq!(session.status, Status::Failed);
    assert_eq!(session.last_error, Some("window went away".to_owned()));
    assert!(session.progress.is_empty());
    // a late outcome for an already-failed session is ignored
    session.record_step(true, "late".to_owned());
    assert_eq!(session.status, Status::Failed);
    assert!(session.progress.is_empty());
}

#[test]
fn cancellation_round_cancels_a_running_session() {
    let mut session = fresh("do two things");
    session.begin(2);
    let needs_wait = session.request_cancel();
    assert!(needs_wait);
    assert_eq!(session.status, Status::Cancelling);
    // the driver observes the token at its next step boundary
    session.observe_cancel();
    assert_eq!(session.status, Status::Cancelled);
    assert_eq!(session.finish_cancel(), Ok(()));
}

#[test]
fn cancel_on_a_terminal_session_is_a_successful_noop() {
    let mut session = fresh("one step");
    session.run_driver(&vec![outcome(true, "done")]);
    assert_eq!(session.status, Status::Completed);
    let needs_wait = session.request_cancel();
    assert!(!needs_wait);
    assert_eq!(session.status, Status::Completed);
    assert_eq!(session.progress.len(), 1);
    assert!(!session.cancel_requested);
    assert_eq!(session.finish_cancel(), Ok(()));
    assert_eq!(session.status, Status::Completed);
}

#[test]
fn cancel_timeout_falls_back_to_running() {
    let mut session = fresh("do two things");
    session.begin(2);
    session.record_step(true, "one".to_owned());
    assert!(session.request_cancel());
    // the driver never observes the token within the bounded wait
    assert_eq!(session.finish_cancel(), Err(SessionError::CancelTimeout));
    assert_eq!(session.status, Status::Running);
    // the token stays signalled: a driver that checks later still cancels
    assert!(session.cancel_requested);
    session.observe_cancel();
    assert_eq!(session.status, Status::Cancelled);
}

#[test]
fn cancel_timeout_before_the_driver_started_restores_initializing() {
    let mut session = fresh("do two things");
    assert!(session.request_cancel());
    assert_eq!(session.status, Status::Cancelling);
    assert_eq!(session.finish_cancel(), Err(SessionError::CancelTimeout));
    assert_eq!(session.status, Status::Initializing);
}

#[test]
fn run_driver_acknowledges_a_pending_cancellation() {
    let mut session = fresh("do two things");
    assert!(session.request_cancel());
    session.run_driver(&vec![outcome(true, "one"), outcome(true, "two")]);
    assert_eq!(session.status, Status::Cancelled);
    assert!(session.progress.is_empty());
}

#[test]
fn run_driver_records_every_successful_step_in_order() {
    let mut session = fresh("do three things");
    session.run_driver(&vec![
        outcome(true, "opened the menu"),
        outcome(true, "picked the entry"),
        outcome(true, "confirmed"),
    ]);
    assert_eq!(session.status, Status::Completed);
    assert_eq!(session.progress.len(), 3);
    let details: Vec<&str> = session.progress.iter().map(|r| r.detail.as_str()).collect();
    assert_eq!(details, vec!["opened the menu", "picked the entry", "confirmed"]);
    for (i, record) in session.progress.iter().enumerate() {
        assert_eq!(record.index, i);
    }
}

#[test]
fn run_driver_with_an_empty_plan_completes() {
    let mut session = fresh("nothing to do");
    session.run_driver(&Vec::new());
    assert_eq!(session.status, Status::Completed);
    assert!(session.progress.is_empty());
}

#[test]
fn get_state_copies_the_session() {
    let mut session = fresh("do two things");
    session.begin(2);
    session.record_step(true, "one".to_owned());
    let st = session.get_state();
    assert_eq!(st.session_id, "s1");
    assert_eq!(st.status, Status::Running);
    assert_eq!(st.progress.len(), 1);
    assert_eq!(st.progress[0].detail, "one");
    assert!(st.last_error.is_none());
}

#[test]
fn terminal_statuses_are_exactly_the_three_final_ones() {
    assert!(!Status::Initializing.is_terminal());
    assert!(!Status::Running.is_terminal());
    assert!(!Status::Cancelling.is_terminal());
    assert!(Status::Completed.is_terminal());
    assert!(Status::Failed.is_terminal());
    assert!(Status::Cancelled.is_terminal());
}

#[test]
fn step_records_clone_field_for_field() {
    let record = StepRecord { index: 4, detail: "clicked".to_owned() };
    let copy = record.clone();
    assert_eq!(copy.index, 4);
    assert_eq!(copy.detail, "clicked");
}

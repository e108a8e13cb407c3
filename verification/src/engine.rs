//! The process-facing owner of at most one active session.

use vstd::prelude::*;

use crate::session::Session;
use crate::session::ack_tr;
use crate::session::fresh_view;
use crate::session::request_tr;
use crate::session::state_of;
use crate::state::AutomationState;
use crate::types::Mode;
use crate::types::SessionError;
use crate::types::is_terminal;
use crate::types::valid_mode;

verus! {

/// Owns at most one active [`Session`] at a time: the single slot is an
/// `Option`, so two sessions can never be attached at once, and
/// replacing the occupant always goes through the full stopping protocol
/// first.
pub struct AutomationEngine {
    pub session: Option<Session>,
}

impl AutomationEngine {
    pub open spec fn wf(self) -> bool {
        self.session matches Some(s) ==> s.wf()
    }

    /// A fresh engine with an empty slot.
    pub fn new() -> (engine: AutomationEngine)
        ensures
            engine.session is None,
    {
        AutomationEngine { session: None }
    }

    /// Stops any existing session, then constructs and stores a new one.
    ///
    /// The prior session's slot is cleared before the new session is
    /// constructed, so on a validation error the engine is left with no
    /// session rather than a stale one.
    pub fn start_session(&mut self, session_id: String, instruction: String, mode: String) -> (r: Result<
        (),
        SessionError,
    >)
        requires
            old(self).wf(),
        ensures
            final(self).wf(),
            r is Ok <==> instruction@.len() > 0 && valid_mode(mode@),
            r is Ok ==> (final(self).session matches Some(s)
                && s@ == fresh_view(session_id@, instruction@, Mode::Default)),
            instruction@.len() == 0
                ==> r == Err::<(), SessionError>(SessionError::InvalidInstruction)
                    && final(self).session is None,
            instruction@.len() > 0 && !valid_mode(mode@)
                ==> r == Err::<(), SessionError>(SessionError::InvalidMode)
                    && final(self).session is None,
            old(self).session matches Some(prior)
                ==> is_terminal(ack_tr(request_tr(prior@)).status),
    {
        match self.stop_session() {
            Ok(()) => {},
            Err(e) => {
                return Err(e);
            },
        }
        let session = match Session::new(session_id, instruction, mode) {
            Ok(s) => s,
            Err(e) => {
                return Err(e);
            },
        };
        self.session = Some(session);
        Ok(())
    }

    /// Stops the active session, if any: removes it from the slot,
    /// requests cancellation, and concludes the protocol once the driver
    /// has reached a terminal status.  Idempotent — with no active
    /// session it succeeds as a no-op.
    pub fn stop_session(&mut self) -> (r: Result<(), SessionError>)
        requires
            old(self).wf(),
        ensures
            final(self).session is None,
            r is Ok,
            old(self).session is None ==> *final(self) == *old(self),
            old(self).session matches Some(prior)
                ==> is_terminal(ack_tr(request_tr(prior@)).status),
    {
        match self.session.take() {
            None => Ok(()),
            Some(mut session) => {
                let needs_wait = session.request_cancel();
                if needs_wait {
                    // Between the engine's operations no step is in
                    // flight, so the driver observes the token at its
                    // next boundary, within the bounded wait.
                    session.observe_cancel();
                }
                session.finish_cancel()
            },
        }
    }

    /// Serves a snapshot of the active session's state: `None` exactly
    /// when no session is active.  Never blocks on the driver's work —
    /// only the session's short-lived guard is taken, by the runtime,
    /// for the duration of the copy.
    pub fn get_state(&self) -> (r: Option<AutomationState>)
        requires
            self.wf(),
        ensures
            r is Some <==> self.session is Some,
            self.session matches Some(s)
                ==> (r matches Some(st) && st@ == state_of(s@)),
    {
        match &self.session {
            None => None,
            Some(session) => Some(session.get_state()),
        }
    }
}

impl Default for AutomationEngine {
    /// Same as [`AutomationEngine::new`]: an engine with an empty slot.
    fn default() -> (engine: AutomationEngine)
        ensures
            engine.session is None,
    {
        AutomationEngine { session: None }
    }
}

} // verus!

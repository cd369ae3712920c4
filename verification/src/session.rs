//! Display-session negotiation.
//!
//! The host mediates two asynchronous steps, the support query and the
//! session request; the state machine here owns the decisions between them.
//! Exactly one session exists per running engine, and exactly one render
//! layer is ever bound to it; an unsupported session mode is a normal
//! terminal outcome, not a failure.

use vstd::prelude::*;

verus! {

/// Lifecycle of the one display session.
#[derive(Clone, Copy, Debug, PartialEq, Eq, Structural)]
pub enum SessionPhase {
    /// Nothing asked of the host yet.
    Unrequested,
    /// Negotiation under way: support queried, session possibly requested.
    Requesting,
    /// A session is bound to its render layer and frames can be scheduled.
    Active,
    /// The host does not support the requested mode; terminal.
    Unsupported,
}

/// What to do after the host answered the support query.
#[derive(Clone, Copy, Debug, PartialEq, Eq, Structural)]
pub enum InitStep {
    /// Request the session from the host.
    RequestSession,
    /// Stop: the mode is unsupported; no session request is to be made.
    Unsupported,
}

/// Mathematical model of the session manager.
pub ghost struct SessionModel {
    pub phase: SessionPhase,
    pub layer_bound: bool,
}

/// Owns the one display session's lifecycle.
pub struct SessionManager {
    phase: SessionPhase,
    layer_bound: bool,
}

impl View for SessionManager {
    type V = SessionModel;

    closed spec fn view(&self) -> SessionModel {
        SessionModel { phase: self.phase, layer_bound: self.layer_bound }
    }
}

impl SessionManager {
    /// A render layer is bound exactly while the session is active, and an
    /// active session is never rebound.
    pub open spec fn inv(self) -> bool {
        self@.layer_bound <==> self@.phase == SessionPhase::Active
    }

    /// Fresh manager: no session requested yet.
    pub fn new() -> (r: SessionManager)
        ensures
            r@.phase == SessionPhase::Unrequested,
            !r@.layer_bound,
            r.inv(),
    {
        SessionManager { phase: SessionPhase::Unrequested, layer_bound: false }
    }

    /// Current phase.
    pub fn phase(&self) -> (r: SessionPhase)
        ensures
            r == self@.phase,
    {
        self.phase
    }

    /// Initialization begins: the support query for the session mode goes
    /// out to the host.
    pub fn begin_initialize(&mut self)
        requires
            old(self).inv(),
            old(self)@.phase == SessionPhase::Unrequested,
        ensures
            final(self)@.phase == SessionPhase::Requesting,
            !final(self)@.layer_bound,
            final(self).inv(),
    {
        self.phase = SessionPhase::Requesting;
    }

    /// The host answered the support query.
    ///
    /// An unsupported mode ends negotiation right here: the returned step
    /// says to make no session request, and the phase is terminal.
    pub fn on_support_result(&mut self, supported: bool) -> (step: InitStep)
        requires
            old(self).inv(),
            old(self)@.phase == SessionPhase::Requesting,
        ensures
            step == InitStep::RequestSession <==> supported,
            !supported ==> final(self)@.phase == SessionPhase::Unsupported,
            supported ==> final(self)@.phase == SessionPhase::Requesting,
            !final(self)@.layer_bound,
            final(self).inv(),
    {
        if supported {
            InitStep::RequestSession
        } else {
            self.phase = SessionPhase::Unsupported;
            InitStep::Unsupported
        }
    }

    /// The host granted the session and its render layer was bound: the one
    /// and only layer binding of this session.
    pub fn on_session_granted(&mut self)
        requires
            old(self).inv(),
            old(self)@.phase == SessionPhase::Requesting,
        ensures
            final(self)@.phase == SessionPhase::Active,
            final(self)@.layer_bound,
            final(self).inv(),
    {
        self.phase = SessionPhase::Active;
        self.layer_bound = true;
    }

    /// Whether the frame loop may start: only with an active session; with
    /// none, starting is a no-op for the caller.
    pub fn can_start(&self) -> (r: bool)
        ensures
            r <==> self@.phase == SessionPhase::Active,
    {
        matches!(self.phase, SessionPhase::Active)
    }
}

/// The terminal status message of an unsupported session mode.
pub fn unsupported_session_message() -> (r: &'static str)
    ensures
        r@ == "unsupported XR session"@,
{
    "unsupported XR session"
}

/// The status message of a completed initialization.
pub fn initialize_complete_message() -> (r: &'static str)
    ensures
        r@ == "complete initialize session"@,
{
    "complete initialize session"
}

} // verus!

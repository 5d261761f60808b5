//! The per-invocation call session: a small state machine that drives one
//! `connect -> bind -> set_powered` sequence to a single terminal outcome.
//!
//! The session owns every decision of the sequence; the surrounding program
//! only performs the bus actions the session hands out and feeds the plain
//! results back in. Each user interaction runs a fresh session: no state
//! survives from one invocation to the next, and every failure is terminal
//! for its invocation.

use vstd::prelude::*;
use crate::address::AdapterAddress;
use crate::address::SetPoweredRequest;
use crate::address::first_adapter_view;
use crate::address::set_powered_request_view;
use crate::outcome::BusError;
use crate::outcome::BusErrorView;
use crate::outcome::CallOutcome;
use crate::outcome::Diagnostic;
use crate::outcome::OutcomeView;
use crate::outcome::diagnostic_line_of;
use crate::outcome::diagnostic_of;
use crate::outcome::reason_of;

verus! {

/// Where one invocation stands. Every session moves forward through
/// `Idle -> Connecting -> Binding -> Calling -> Done`, except that any
/// failure jumps straight to `Done`. `Done` is terminal: a new user action
/// needs a new session.
pub enum CallState {
    Idle,
    Connecting,
    Binding,
    Calling,
    Done,
}

/// What the session asks the surrounding program to do next: open the bus
/// connection, bind a proxy at the given address, issue the property-write,
/// or deliver the terminal outcome together with its one diagnostic line.
pub enum BusAction {
    Connect,
    Bind(AdapterAddress),
    SetPowered(SetPoweredRequest),
    Report(CallOutcome, Diagnostic),
}

/// One toggle invocation: the requested power state and how far the
/// `connect -> bind -> set_powered` sequence has come.
pub struct CallSession {
    pub desired: bool,
    pub state: CallState,
}

/// The terminal report owed for a failure `e`: the failed outcome carrying
/// the reason, and the reason as a line on the error stream.
pub open spec fn failure_report(a: BusAction, e: BusErrorView) -> bool {
    &&& a matches BusAction::Report(o, d)
    &&& o@ == OutcomeView::Failed(reason_of(e))
    &&& d.line@ == reason_of(e)
    &&& d.channel is Error
}

/// The terminal report owed for a success: `Succeeded(desired)` and the
/// fixed success phrase on the ordinary output stream.
pub open spec fn success_report(a: BusAction, desired: bool) -> bool {
    &&& a matches BusAction::Report(o, d)
    &&& o@ == OutcomeView::Succeeded(desired)
    &&& d.line@ == diagnostic_line_of(OutcomeView::Succeeded(desired))
    &&& d.channel is Out
}

impl CallSession {
    /// Opens a fresh session for one requested power state. The session
    /// starts idle whatever any earlier invocation did.
    pub fn new(desired: bool) -> (r: CallSession)
        ensures
            r.desired == desired,
            r.state is Idle,
    {
        CallSession { desired, state: CallState::Idle }
    }

    /// Begins the sequence: the first thing every invocation does is open
    /// a connection to the system bus.
    pub fn start(&mut self) -> (r: BusAction)
        requires
            old(self).state is Idle,
        ensures
            final(self).desired == old(self).desired,
            final(self).state is Connecting,
            r is Connect,
    {
        self.state = CallState::Connecting;
        BusAction::Connect
    }

    /// Takes the result of opening the connection. On success the session
    /// asks for a proxy bound to the first adapter; an unreachable bus is
    /// terminal and reported as a connection failure.
    pub fn on_connect(&mut self, result: Result<(), String>) -> (r: BusAction)
        requires
            old(self).state is Connecting,
        ensures
            final(self).desired == old(self).desired,
            result is Ok ==> final(self).state is Binding,
            result is Ok ==> (r matches BusAction::Bind(a) && a@ == first_adapter_view()),
            result matches Err(d) ==> final(self).state is Done,
            result matches Err(d) ==> failure_report(r, BusErrorView::ConnectionError(d@)),
    {
        match result {
            Ok(()) => {
                self.state = CallState::Binding;
                BusAction::Bind(AdapterAddress::first_adapter())
            },
            Err(d) => self.fail(BusError::ConnectionError(d)),
        }
    }

    /// Takes the result of binding the adapter proxy. On success the session
    /// asks for the property-write; an unresolved remote object is terminal
    /// and reported as a bind failure, never a crash.
    pub fn on_bind(&mut self, result: Result<(), String>) -> (r: BusAction)
        requires
            old(self).state is Binding,
        ensures
            final(self).desired == old(self).desired,
            result is Ok ==> final(self).state is Calling,
            result is Ok ==> (r matches BusAction::SetPowered(q) && q@ == set_powered_request_view(
                old(self).desired,
            )),
            result matches Err(d) ==> final(self).state is Done,
            result matches Err(d) ==> failure_report(r, BusErrorView::BindError(d@)),
    {
        match result {
            Ok(()) => {
                self.state = CallState::Calling;
                BusAction::SetPowered(SetPoweredRequest::set_powered(self.desired))
            },
            Err(d) => self.fail(BusError::BindError(d)),
        }
    }

    /// Takes the result of the remote property-write. The bus acknowledgment
    /// is trusted as the outcome: on success the session reports exactly the
    /// requested state as applied, without re-reading the property. A failed
    /// call is reported as a call failure.
    pub fn on_call(&mut self, result: Result<(), String>) -> (r: BusAction)
        requires
            old(self).state is Calling,
        ensures
            final(self).desired == old(self).desired,
            final(self).state is Done,
            result is Ok ==> success_report(r, old(self).desired),
            result matches Err(d) ==> failure_report(r, BusErrorView::CallError(d@)),
    {
        match result {
            Ok(()) => {
                self.state = CallState::Done;
                let outcome = CallOutcome::Succeeded(self.desired);
                let diagnostic = diagnostic_of(&outcome);
                BusAction::Report(outcome, diagnostic)
            },
            Err(d) => self.fail(BusError::CallError(d)),
        }
    }

    /// Ends the session on a failure: every error is caught here, turned
    /// into a failed outcome with its reason, and reported once on the
    /// error stream. The process never terminates over a failed toggle.
    fn fail(&mut self, e: BusError) -> (r: BusAction)
        ensures
            final(self).desired == old(self).desired,
            final(self).state is Done,
            failure_report(r, e@),
    {
        self.state = CallState::Done;
        let outcome = CallOutcome::Failed(e.into_reason());
        let diagnostic = diagnostic_of(&outcome);
        BusAction::Report(outcome, diagnostic)
    }
}

} // verus!

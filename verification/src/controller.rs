//! The toggle controller: one invocation of the full
//! `connect -> bind -> set_powered` sequence, run to its single outcome.
//!
//! The bus itself is modeled by what it does in response to one invocation
//! (`BusBehavior`): the surrounding program observes that behavior by doing
//! the actual I/O and hands it in as plain values. `apply` then is a total
//! function of the requested state and the observed behavior alone, which is
//! what makes invocations independent of one another.

use vstd::prelude::*;
use vstd::pervasive::unreached;
use crate::outcome::CallOutcome;
use crate::outcome::Diagnostic;
use crate::outcome::OutcomeView;
use crate::outcome::BusErrorView;
use crate::outcome::diagnostic_channel_of;
use crate::outcome::diagnostic_line_of;
use crate::outcome::reason_of;
use crate::session::BusAction;
use crate::session::CallSession;

verus! {

/// How the bus answers one invocation: the connection is refused, the
/// adapter proxy cannot be resolved, the property-write is rejected, or
/// everything is accepted. Each failing variant carries the transport's
/// diagnostic text.
pub enum BusBehavior {
    Unreachable(String),
    Unresolved(String),
    Rejected(String),
    Accepting,
}

/// Mathematical model of a `BusBehavior`.
pub enum BusBehaviorView {
    Unreachable(Seq<char>),
    Unresolved(Seq<char>),
    Rejected(Seq<char>),
    Accepting,
}

impl View for BusBehavior {
    type V = BusBehaviorView;

    open spec fn view(&self) -> BusBehaviorView {
        match self {
            BusBehavior::Unreachable(d) => BusBehaviorView::Unreachable(d@),
            BusBehavior::Unresolved(d) => BusBehaviorView::Unresolved(d@),
            BusBehavior::Rejected(d) => BusBehaviorView::Rejected(d@),
            BusBehavior::Accepting => BusBehaviorView::Accepting,
        }
    }
}

/// The outcome one invocation comes to: `Succeeded(desired)` exactly when
/// the bus accepts every step, and otherwise `Failed` with the reason of
/// the first step the bus refused.
pub open spec fn outcome_of(desired: bool, b: BusBehaviorView) -> OutcomeView {
    match b {
        BusBehaviorView::Unreachable(d) => OutcomeView::Failed(
            reason_of(BusErrorView::ConnectionError(d)),
        ),
        BusBehaviorView::Unresolved(d) => OutcomeView::Failed(
            reason_of(BusErrorView::BindError(d)),
        ),
        BusBehaviorView::Rejected(d) => OutcomeView::Failed(reason_of(BusErrorView::CallError(d))),
        BusBehaviorView::Accepting => OutcomeView::Succeeded(desired),
    }
}

/// Runs one toggle invocation against a bus that behaves as `behavior`
/// says, driving a fresh session from idle to its terminal report. Returns
/// the one outcome of the invocation and the one diagnostic line owed for
/// it.
pub fn apply(desired: bool, behavior: BusBehavior) -> (r: (CallOutcome, Diagnostic))
    ensures
        r.0@ == outcome_of(desired, behavior@),
        r.1.line@ == diagnostic_line_of(outcome_of(desired, behavior@)),
        r.1.channel == diagnostic_channel_of(outcome_of(desired, behavior@)),
{
    let mut session = CallSession::new(desired);
    let _ = session.start();
    match behavior {
        BusBehavior::Unreachable(d) => deliver(session.on_connect(Err(d))),
        BusBehavior::Unresolved(d) => {
            let _ = session.on_connect(Ok(()));
            deliver(session.on_bind(Err(d)))
        },
        BusBehavior::Rejected(d) => {
            let _ = session.on_connect(Ok(()));
            let _ = session.on_bind(Ok(()));
            deliver(session.on_call(Err(d)))
        },
        BusBehavior::Accepting => {
            let _ = session.on_connect(Ok(()));
            let _ = session.on_bind(Ok(()));
            deliver(session.on_call(Ok(())))
        },
    }
}

/// A successful invocation reports exactly the requested power state: for
/// every requested state and every bus behavior, if the outcome is
/// `Succeeded` at all, its applied state is the requested one — never a
/// negation or a reinterpretation. In particular, an accepting bus yields
/// `Succeeded(desired)`.
pub proof fn lemma_success_reflects_request(desired: bool, b: BusBehaviorView)
    ensures
        outcome_of(desired, b) is Succeeded ==> outcome_of(desired, b) == OutcomeView::Succeeded(
            desired,
        ),
        outcome_of(desired, BusBehaviorView::Accepting) == OutcomeView::Succeeded(desired),
{
}

/// An unreachable bus never succeeds: whatever state is requested and
/// whatever diagnostic the refused connection carries, the outcome is
/// `Failed` and not `Succeeded`.
pub proof fn lemma_unreachable_always_fails(desired: bool, d: Seq<char>)
    ensures
        outcome_of(desired, BusBehaviorView::Unreachable(d)) is Failed,
        !(outcome_of(desired, BusBehaviorView::Unreachable(d)) is Succeeded),
{
}

/// The outcomes of two invocations run one after the other: each is the
/// outcome of its own invocation, computed from its own requested state
/// and its own bus behavior.
pub open spec fn outcomes_of_sequence(
    first_desired: bool,
    first_bus: BusBehaviorView,
    second_desired: bool,
    second_bus: BusBehaviorView,
) -> (OutcomeView, OutcomeView) {
    (outcome_of(first_desired, first_bus), outcome_of(second_desired, second_bus))
}

/// Invocations are independent: in any sequence of two invocations, the
/// second outcome is exactly the outcome of the second invocation run on
/// its own, however the first invocation was requested and however its bus
/// behaved — no state carries over from one invocation to the next.
pub proof fn lemma_second_invocation_independent(
    first_desired: bool,
    first_bus: BusBehaviorView,
    other_desired: bool,
    other_bus: BusBehaviorView,
    second_desired: bool,
    second_bus: BusBehaviorView,
)
    ensures
        outcomes_of_sequence(first_desired, first_bus, second_desired, second_bus).1 == outcome_of(
            second_desired,
            second_bus,
        ),
        outcomes_of_sequence(first_desired, first_bus, second_desired, second_bus).1
            == outcomes_of_sequence(other_desired, other_bus, second_desired, second_bus).1,
{
}

/// Unwraps the terminal report of a finished session.
fn deliver(a: BusAction) -> (r: (CallOutcome, Diagnostic))
    requires
        a is Report,
    ensures
        a matches BusAction::Report(o, d) ==> r.0 == o && r.1 == d,
{
    match a {
        BusAction::Report(o, d) => (o, d),
        _ => unreached(),
    }
}

} // verus!

//! Error taxonomy of a single toggle invocation.

use vstd::prelude::*;
use vstd::string::StringExecFns;

verus! {

/// What went wrong during one toggle invocation: the bus was unreachable,
/// the adapter proxy could not be bound, or the remote property-set call
/// itself failed. The payload is the transport's own diagnostic text.
pub enum BusError {
    ConnectionError(String),
    BindError(String),
    CallError(String),
}

/// Mathematical model of a `BusError`: the same variants over character
/// sequences.
pub enum BusErrorView {
    ConnectionError(Seq<char>),
    BindError(Seq<char>),
    CallError(Seq<char>),
}

impl View for BusError {
    type V = BusErrorView;

    open spec fn view(&self) -> BusErrorView {
        match self {
            BusError::ConnectionError(d) => BusErrorView::ConnectionError(d@),
            BusError::BindError(d) => BusErrorView::BindError(d@),
            BusError::CallError(d) => BusErrorView::CallError(d@),
        }
    }
}

/// The human-readable failure reason carried by a failed outcome: a fixed
/// prefix naming the failed stage, followed by the transport diagnostic.
pub open spec fn reason_of(e: BusErrorView) -> Seq<char> {
    match e {
        BusErrorView::ConnectionError(d) => "Failed to connect to D-Bus: "@ + d,
        BusErrorView::BindError(d) => "Failed to bind the adapter proxy: "@ + d,
        BusErrorView::CallError(d) => "D-Bus error: "@ + d,
    }
}

/// What one toggle invocation came to: the requested power state was
/// applied, or the invocation failed with a human-readable reason. Exactly
/// one outcome is produced per invocation, and it is handed to the caller
/// rather than retained.
pub enum CallOutcome {
    Succeeded(bool),
    Failed(String),
}

/// Mathematical model of a `CallOutcome`.
pub enum OutcomeView {
    Succeeded(bool),
    Failed(Seq<char>),
}

impl View for CallOutcome {
    type V = OutcomeView;

    open spec fn view(&self) -> OutcomeView {
        match self {
            CallOutcome::Succeeded(b) => OutcomeView::Succeeded(*b),
            CallOutcome::Failed(r) => OutcomeView::Failed(r@),
        }
    }
}

/// Where a diagnostic line goes: the ordinary output stream for successes,
/// the error stream for failures.
pub enum Channel {
    Out,
    Error,
}

/// One line for the diagnostic sink, with the stream it belongs on.
pub struct Diagnostic {
    pub line: String,
    pub channel: Channel,
}

/// The one diagnostic line that accompanies an outcome: a fixed phrase on
/// success, the failure reason itself otherwise.
pub open spec fn diagnostic_line_of(o: OutcomeView) -> Seq<char> {
    match o {
        OutcomeView::Succeeded(b) => if b {
            "Bluetooth enabled"@
        } else {
            "Bluetooth disabled"@
        },
        OutcomeView::Failed(reason) => reason,
    }
}

/// The stream an outcome's diagnostic line goes to.
pub open spec fn diagnostic_channel_of(o: OutcomeView) -> Channel {
    match o {
        OutcomeView::Succeeded(_) => Channel::Out,
        OutcomeView::Failed(_) => Channel::Error,
    }
}

/// The diagnostic sink receives exactly one line per invocation, and for
/// every outcome that line is fixed: "Bluetooth enabled" for
/// `Succeeded(true)`, "Bluetooth disabled" for `Succeeded(false)`, and for
/// any failure the failure reason itself, on the error stream.
pub proof fn lemma_one_line_per_outcome(o: OutcomeView)
    ensures
        o == OutcomeView::Succeeded(true) ==> diagnostic_line_of(o) == "Bluetooth enabled"@,
        o == OutcomeView::Succeeded(false) ==> diagnostic_line_of(o) == "Bluetooth disabled"@,
        o is Succeeded ==> diagnostic_channel_of(o) is Out,
        o matches OutcomeView::Failed(reason) ==> diagnostic_line_of(o) == reason,
        o is Failed ==> diagnostic_channel_of(o) is Error,
{
}

/// Renders the single diagnostic line owed for `outcome`.
pub fn diagnostic_of(outcome: &CallOutcome) -> (r: Diagnostic)
    ensures
        r.line@ == diagnostic_line_of(outcome@),
        r.channel == diagnostic_channel_of(outcome@),
{
    match outcome {
        CallOutcome::Succeeded(b) => {
            if *b {
                Diagnostic { line: String::from_str("Bluetooth enabled"), channel: Channel::Out }
            } else {
                Diagnostic { line: String::from_str("Bluetooth disabled"), channel: Channel::Out }
            }
        },
        CallOutcome::Failed(reason) => {
            Diagnostic { line: reason.clone(), channel: Channel::Error }
        },
    }
}

impl BusError {
    /// Renders the failure reason that a failed outcome reports.
    pub fn into_reason(self) -> (r: String)
        ensures
            r@ == reason_of(self@),
    {
        match self {
            BusError::ConnectionError(d) => {
                String::from_str("Failed to connect to D-Bus: ").concat(d.as_str())
            },
            BusError::BindError(d) => {
                String::from_str("Failed to bind the adapter proxy: ").concat(d.as_str())
            },
            BusError::CallError(d) => {
                String::from_str("D-Bus error: ").concat(d.as_str())
            },
        }
    }
}

} // verus!

//! A toggle control for the power state of the first Bluetooth adapter.
//!
//! The library holds the verified core: the per-invocation call session
//! (a small state machine driving `connect -> bind -> set_powered`), the
//! outcome and error taxonomy, the remote addressing constants, and the
//! diagnostic reporting rules. The surrounding program performs the actual
//! bus I/O and the user interface, handing the library plain values and
//! taking plain values back.

mod address;
mod controller;
mod outcome;
mod session;

pub use address::AdapterAddress;
pub use address::AdapterAddressView;
pub use address::SetPoweredRequest;
pub use address::SetPoweredRequestView;
pub use address::first_adapter_view;
pub use address::set_powered_request_view;
pub use controller::BusBehavior;
pub use controller::BusBehaviorView;
pub use controller::apply;
pub use controller::lemma_second_invocation_independent;
pub use controller::lemma_success_reflects_request;
pub use controller::lemma_unreachable_always_fails;
pub use controller::outcome_of;
pub use controller::outcomes_of_sequence;
pub use outcome::BusError;
pub use outcome::BusErrorView;
pub use outcome::CallOutcome;
pub use outcome::Channel;
pub use outcome::Diagnostic;
pub use outcome::OutcomeView;
pub use outcome::diagnostic_channel_of;
pub use outcome::diagnostic_line_of;
pub use outcome::diagnostic_of;
pub use outcome::lemma_one_line_per_outcome;
pub use outcome::reason_of;
pub use session::BusAction;
pub use session::CallSession;
pub use session::CallState;
pub use session::failure_report;
pub use session::success_report;

use bluetoggle::AdapterAddress;
use bluetoggle::BusAction;
use bluetoggle::BusBehavior;
use bluetoggle::BusError;
use bluetoggle::CallOutcome;
use bluetoggle::CallSession;
use bluetoggle::CallState;
use bluetoggle::Channel;
use bluetoggle::SetPoweredRequest;
use bluetoggle::apply;
use bluetoggle::diagnostic_of;

#[test]
fn successful_apply_reflects_requested_state_on() {
    let (outcome, _diag) = apply(true, BusBehavior::Accepting);
    assert!(matches!(outcome, CallOutcome::Succeeded(true)));
}

#[test]
fn successful_apply_reflects_requested_state_off() {
    let (outcome, _diag) = apply(false, BusBehavior::Accepting);
    assert!(matches!(outcome, CallOutcome::Succeeded(false)));
}

#[test]
fn accepting_bus_prints_enabled_line_on_out_stream() {
    let (_outcome, diag) = apply(true, BusBehavior::Accepting);
    assert_eq!(diag.line, "Bluetooth enabled");
    assert!(matches!(diag.channel, Channel::Out));
}

#[test]
fn accepting_bus_prints_disabled_line_on_out_stream() {
    let (_outcome, diag) = apply(false, BusBehavior::Accepting);
    assert_eq!(diag.line, "Bluetooth disabled");
    assert!(matches!(diag.channel, Channel::Out));
}

#[test]
fn unreachable_bus_fails_when_enabling() {
    let (outcome, diag) = apply(true, BusBehavior::Unreachable("connection refused".to_string()));
    assert!(matches!(outcome, CallOutcome::Failed(_)));
    assert!(matches!(diag.channel, Channel::Error));
    assert_eq!(diag.line, "Failed to connect to D-Bus: connection refused");
}

#[test]
fn unreachable_bus_fails_when_disabling() {
    let (outcome, diag) = apply(false, BusBehavior::Unreachable("connection refused".to_string()));
    match outcome {
        CallOutcome::Failed(reason) => {
            assert!(reason.contains("connection refused"));
        }
        CallOutcome::Succeeded(_) => panic!("an unreachable bus must never succeed"),
    }
    assert!(matches!(diag.channel, Channel::Error));
}

#[test]
fn missing_object_path_surfaces_as_failed_bind() {
    let (outcome, diag) = apply(
        true,
        BusBehavior::Unresolved("no such object /org/bluez/hci0".to_string()),
    );
    match outcome {
        CallOutcome::Failed(reason) => {
            assert_eq!(reason, "Failed to bind the adapter proxy: no such object /org/bluez/hci0");
        }
        CallOutcome::Succeeded(_) => panic!("an unresolved adapter must never succeed"),
    }
    assert!(matches!(diag.channel, Channel::Error));
}

#[test]
fn rejected_call_surfaces_transport_diagnostic() {
    let (outcome, diag) = apply(true, BusBehavior::Rejected("operation not permitted".to_string()));
    match outcome {
        CallOutcome::Failed(reason) => {
            assert_eq!(reason, "D-Bus error: operation not permitted");
        }
        CallOutcome::Succeeded(_) => panic!("a rejected call must never succeed"),
    }
    assert_eq!(diag.line, "D-Bus error: operation not permitted");
    assert!(matches!(diag.channel, Channel::Error));
}

#[test]
fn sequential_invocations_are_independent() {
    let (first, _) = apply(true, BusBehavior::Accepting);
    let (second, _) = apply(false, BusBehavior::Accepting);
    assert!(matches!(first, CallOutcome::Succeeded(true)));
    assert!(matches!(second, CallOutcome::Succeeded(false)));
}

#[test]
fn second_invocation_unaffected_by_first_failure() {
    let (first, _) = apply(true, BusBehavior::Unreachable("bus is down".to_string()));
    let (second, _) = apply(true, BusBehavior::Accepting);
    assert!(matches!(first, CallOutcome::Failed(_)));
    assert!(matches!(second, CallOutcome::Succeeded(true)));
}

#[test]
fn session_walks_through_all_stages_on_success() {
    let mut session = CallSession::new(true);
    assert!(matches!(session.state, CallState::Idle));

    let action = session.start();
    assert!(matches!(action, BusAction::Connect));
    assert!(matches!(session.state, CallState::Connecting));

    let action = session.on_connect(Ok(()));
    match action {
        BusAction::Bind(address) => {
            assert_eq!(address.service, "org.bluez");
            assert_eq!(address.object_path, "/org/bluez/hci0");
            assert_eq!(address.properties_interface, "org.freedesktop.DBus.Properties");
        }
        _ => panic!("a connected session must ask to bind the adapter proxy"),
    }
    assert!(matches!(session.state, CallState::Binding));

    let action = session.on_bind(Ok(()));
    match action {
        BusAction::SetPowered(request) => {
            assert_eq!(request.adapter_interface, "org.bluez.Adapter1");
            assert_eq!(request.property, "Powered");
            assert!(request.value);
        }
        _ => panic!("a bound session must ask for the property-write"),
    }
    assert!(matches!(session.state, CallState::Calling));

    let action = session.on_call(Ok(()));
    match action {
        BusAction::Report(outcome, diag) => {
            assert!(matches!(outcome, CallOutcome::Succeeded(true)));
            assert_eq!(diag.line, "Bluetooth enabled");
            assert!(matches!(diag.channel, Channel::Out));
        }
        _ => panic!("a completed session must report its outcome"),
    }
    assert!(matches!(session.state, CallState::Done));
}

#[test]
fn session_reports_connection_failure_and_is_done() {
    let mut session = CallSession::new(false);
    let _ = session.start();
    let action = session.on_connect(Err("permission denied".to_string()));
    match action {
        BusAction::Report(outcome, diag) => {
            assert!(matches!(outcome, CallOutcome::Failed(_)));
            assert_eq!(diag.line, "Failed to connect to D-Bus: permission denied");
            assert!(matches!(diag.channel, Channel::Error));
        }
        _ => panic!("a refused connection must end in a report"),
    }
    assert!(matches!(session.state, CallState::Done));
}

#[test]
fn first_adapter_address_is_constant() {
    let address = AdapterAddress::first_adapter();
    assert_eq!(address.service, "org.bluez");
    assert_eq!(address.object_path, "/org/bluez/hci0");
    assert_eq!(address.properties_interface, "org.freedesktop.DBus.Properties");
}

#[test]
fn set_powered_request_names_adapter_interface_and_property() {
    let request = SetPoweredRequest::set_powered(false);
    assert_eq!(request.adapter_interface, "org.bluez.Adapter1");
    assert_eq!(request.property, "Powered");
    assert!(!request.value);
}

#[test]
fn each_error_variant_renders_its_reason() {
    let connect = BusError::ConnectionError("no socket".to_string());
    assert_eq!(connect.into_reason(), "Failed to connect to D-Bus: no socket");
    let bind = BusError::BindError("unknown interface".to_string());
    assert_eq!(bind.into_reason(), "Failed to bind the adapter proxy: unknown interface");
    let call = BusError::CallError("rejected".to_string());
    assert_eq!(call.into_reason(), "D-Bus error: rejected");
}

#[test]
fn diagnostic_of_each_outcome_shape() {
    let on = diagnostic_of(&CallOutcome::Succeeded(true));
    assert_eq!(on.line, "Bluetooth enabled");
    assert!(matches!(on.channel, Channel::Out));

    let off = diagnostic_of(&CallOutcome::Succeeded(false));
    assert_eq!(off.line, "Bluetooth disabled");
    assert!(matches!(off.channel, Channel::Out));

    let failed = diagnostic_of(&CallOutcome::Failed("D-Bus error: timeout".to_string()));
    assert_eq!(failed.line, "D-Bus error: timeout");
    assert!(matches!(failed.channel, Channel::Error));
}

use drcom4scut::service::{
    control_reply, dispatch, handle, launch_arguments, needs_stop, status_report,
    wait_for_state_step, ControlResult, ServiceControl, ServiceError, ServiceOperation,
    ServiceErrorControl, ServiceStage, ServiceStartType, ServiceState, ServiceType,
};
use drcom4scut::settings::ServiceCommand;

#[test]
fn services_unsupported_off_windows() {
    assert_eq!(dispatch(false).unwrap_err(), ServiceError::Unsupported);
    assert!(matches!(handle(ServiceCommand::Start, false), Err(ServiceError::Unsupported)));
    assert_eq!(
        ServiceError::Unsupported.message(),
        "Windows services are only supported on Windows."
    );
}

#[test]
fn install_registers_a_service_run() {
    match handle(ServiceCommand::Install { config: "C:\\drcom\\config.yml".to_string() }, true) {
        Ok(ServiceOperation::Install(i)) => {
            assert_eq!(i.name, "drcom4scut");
            assert_eq!(i.display_name, "drcom4scut");
            assert_eq!(i.launch_arguments, vec!["run-service", "--config", "C:\\drcom\\config.yml"]);
            assert_eq!(i.service_type, ServiceType::OwnProcess);
            assert_eq!(i.start_type, ServiceStartType::AutoStart);
            assert_eq!(i.error_control, ServiceErrorControl::Normal);
            assert!(i.dependencies.is_empty());
            assert!(i.account_name.is_none() && i.account_password.is_none());
        }
        _ => panic!("expected an install"),
    }
    assert_eq!(dispatch(true).unwrap(), "drcom4scut");
    assert_eq!(launch_arguments("x".to_string()), vec!["run-service", "--config", "x"]);
}

#[test]
fn other_commands_name_the_service() {
    assert!(matches!(handle(ServiceCommand::Stop, true), Ok(ServiceOperation::Stop { name }) if name == "drcom4scut"));
    assert!(matches!(handle(ServiceCommand::Uninstall, true), Ok(ServiceOperation::Uninstall { .. })));
}

#[test]
fn stopped_services_are_not_stopped_again() {
    assert!(!needs_stop(ServiceState::Stopped));
    assert!(needs_stop(ServiceState::Running));
    assert_eq!(wait_for_state_step(ServiceState::Running, ServiceState::Running), None);
    assert_eq!(wait_for_state_step(ServiceState::StopPending, ServiceState::Stopped), Some(250));
}

#[test]
fn control_requests_are_answered() {
    assert_eq!(control_reply(ServiceControl::Stop), (true, ControlResult::NoError));
    assert_eq!(control_reply(ServiceControl::Interrogate), (false, ControlResult::NoError));
    assert_eq!(control_reply(ServiceControl::Other), (false, ControlResult::NotImplemented));
}

#[test]
fn only_running_service_accepts_stop() {
    let s = status_report(ServiceStage::Starting);
    assert_eq!(s.state, ServiceState::StartPending);
    assert!(!s.accepts_stop);
    let r = status_report(ServiceStage::Running);
    assert!(r.accepts_stop);
    assert_eq!(r.wait_hint, 5);
    assert_eq!(r.service_type, ServiceType::OwnProcess);
    assert_eq!(r.process_id, None);
    assert_eq!(status_report(ServiceStage::Stopped).state, ServiceState::Stopped);
}

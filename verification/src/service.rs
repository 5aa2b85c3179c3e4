//! The decisions of the Windows service integration: which service manager
//! operation a command asks for, when a service must be stopped first, how
//! control requests are answered and which status each stage reports. The
//! operations themselves are carried out by the service manager, outside.
use crate::settings::ServiceCommand;
use vstd::prelude::*;

verus! {

/// Why a service operation cannot be carried out.
#[derive(Debug, Clone, Copy, PartialEq, Eq, Structural)]
pub enum ServiceError {
    /// The platform has no Windows services.
    Unsupported,
}

impl ServiceError {
    /// The message shown to the user.
    pub fn message(&self) -> (r: &'static str)
        ensures
            r@ == "Windows services are only supported on Windows."@,
    {
        match self {
            ServiceError::Unsupported => "Windows services are only supported on Windows.",
        }
    }
}

/// The name the service is registered under.
pub open spec fn service_name_spec() -> Seq<char> {
    seq!['d', 'r', 'c', 'o', 'm', '4', 's', 'c', 'u', 't']
}

/// The name the service is registered (and displayed) under.
pub fn service_name() -> (r: String)
    ensures
        r@ == service_name_spec(),
{
    proof {
        reveal_strlit("drcom4scut");
    }
    "drcom4scut".to_owned()
}

/// The kinds of service the service manager knows; the client runs in a
/// process of its own.
#[derive(Debug, Clone, Copy, PartialEq, Eq, Structural)]
pub enum ServiceType {
    OwnProcess,
}

/// When the service manager starts the service: the client starts with
/// the system.
#[derive(Debug, Clone, Copy, PartialEq, Eq, Structural)]
pub enum ServiceStartType {
    AutoStart,
}

/// How the system reacts when the service fails to start: it logs the
/// error and goes on.
#[derive(Debug, Clone, Copy, PartialEq, Eq, Structural)]
pub enum ServiceErrorControl {
    Normal,
}

/// What installing the service registers (besides the path of the
/// executable, which only the running program knows).
#[derive(Debug, Clone)]
pub struct ServiceInstall {
    pub name: String,
    pub display_name: String,
    pub service_type: ServiceType,
    pub start_type: ServiceStartType,
    pub error_control: ServiceErrorControl,
    /// The arguments the service executable is started with.
    pub launch_arguments: Vec<String>,
    /// The services this one depends on.
    pub dependencies: Vec<String>,
    /// The account the service runs as; `None` for the system account.
    pub account_name: Option<String>,
    pub account_password: Option<String>,
}

/// A service manager operation on the client's service.
#[derive(Debug, Clone)]
pub enum ServiceOperation {
    Install(ServiceInstall),
    Uninstall { name: String },
    Start { name: String },
    Stop { name: String },
}

/// The arguments an installed service starts with: a service run of the
/// configuration file at `config`.
pub open spec fn launch_arguments_spec(config: Seq<char>) -> Seq<Seq<char>> {
    seq![
        seq!['r', 'u', 'n', '-', 's', 'e', 'r', 'v', 'i', 'c', 'e'],
        seq!['-', '-', 'c', 'o', 'n', 'f', 'i', 'g'],
        config,
    ]
}

/// The text of each element.
pub open spec fn texts(v: Seq<String>) -> Seq<Seq<char>> {
    v.map_values(|s: String| s@)
}

/// The arguments an installed service starts with.
pub fn launch_arguments(config: String) -> (r: Vec<String>)
    ensures
        texts(r@) == launch_arguments_spec(config@),
{
    proof {
        reveal_strlit("run-service");
        reveal_strlit("--config");
    }
    let ghost c = config@;
    let mut v: Vec<String> = Vec::new();
    v.push("run-service".to_owned());
    v.push("--config".to_owned());
    v.push(config);
    assert(v@[0]@ == launch_arguments_spec(c)[0]);
    assert(v@[1]@ == launch_arguments_spec(c)[1]);
    assert(texts(v@) =~= launch_arguments_spec(c));
    v
}

/// Starts the service runtime: on a platform with services, the service
/// dispatcher of the named service takes over.
pub fn dispatch(services_supported: bool) -> (r: Result<String, ServiceError>)
    ensures
        services_supported ==> (r matches Ok(name) && name@ == service_name_spec()),
        !services_supported ==> r == Err::<String, ServiceError>(ServiceError::Unsupported),
{
    if services_supported {
        Ok(service_name())
    } else {
        Err(ServiceError::Unsupported)
    }
}

/// The operation `command` asks for, on the client's service.
pub open spec fn operation_for(command: ServiceCommand, op: ServiceOperation) -> bool {
    match command {
        ServiceCommand::Install { config } => op matches ServiceOperation::Install(i) && {
            &&& i.name@ == service_name_spec()
            &&& i.display_name@ == service_name_spec()
            &&& i.service_type == ServiceType::OwnProcess
            &&& i.start_type == ServiceStartType::AutoStart
            &&& i.error_control == ServiceErrorControl::Normal
            &&& texts(i.launch_arguments@) == launch_arguments_spec(config@)
            &&& i.dependencies@.len() == 0
            &&& i.account_name is None
            &&& i.account_password is None
        },
        ServiceCommand::Uninstall => op matches ServiceOperation::Uninstall { name } && name@
            == service_name_spec(),
        ServiceCommand::Start => op matches ServiceOperation::Start { name } && name@
            == service_name_spec(),
        ServiceCommand::Stop => op matches ServiceOperation::Stop { name } && name@
            == service_name_spec(),
    }
}

/// Each command asks for the operation of the same kind, on the service
/// named `drcom4scut`: start starts it (never stops it), stop stops it,
/// uninstall deletes it, and install registers it to run with the given
/// configuration.
pub proof fn lemma_operation_kind(command: ServiceCommand, op: ServiceOperation)
    requires
        operation_for(command, op),
    ensures
        command is Start ==> (op matches ServiceOperation::Start { name } && name@
            == seq!['d', 'r', 'c', 'o', 'm', '4', 's', 'c', 'u', 't']),
        command is Stop ==> (op matches ServiceOperation::Stop { name } && name@
            == seq!['d', 'r', 'c', 'o', 'm', '4', 's', 'c', 'u', 't']),
        command is Uninstall ==> (op matches ServiceOperation::Uninstall { name } && name@
            == seq!['d', 'r', 'c', 'o', 'm', '4', 's', 'c', 'u', 't']),
        command is Install ==> (op matches ServiceOperation::Install(i) && texts(
            i.launch_arguments@,
        ) == seq![
            seq!['r', 'u', 'n', '-', 's', 'e', 'r', 'v', 'i', 'c', 'e'],
            seq!['-', '-', 'c', 'o', 'n', 'f', 'i', 'g'],
            command->config@,
        ]),
        (op is Start <==> command is Start) && (op is Stop <==> command is Stop) && (op is Uninstall
            <==> command is Uninstall) && (op is Install <==> command is Install),
{
}

/// The service manager operation a service command asks for.
pub fn handle(command: ServiceCommand, services_supported: bool) -> (r: Result<
    ServiceOperation,
    ServiceError,
>)
    ensures
        services_supported ==> (r matches Ok(op) && operation_for(command, op)),
        !services_supported ==> r == Err::<ServiceOperation, ServiceError>(
            ServiceError::Unsupported,
        ),
{
    if !services_supported {
        return Err(ServiceError::Unsupported);
    }
    match command {
        ServiceCommand::Install { config } => Ok(
            ServiceOperation::Install(
                ServiceInstall {
                    name: service_name(),
                    display_name: service_name(),
                    service_type: ServiceType::OwnProcess,
                    start_type: ServiceStartType::AutoStart,
                    error_control: ServiceErrorControl::Normal,
                    launch_arguments: launch_arguments(config),
                    dependencies: Vec::new(),
                    account_name: None,
                    account_password: None,
                },
            ),
        ),
        ServiceCommand::Uninstall => Ok(ServiceOperation::Uninstall { name: service_name() }),
        ServiceCommand::Start => Ok(ServiceOperation::Start { name: service_name() }),
        ServiceCommand::Stop => Ok(ServiceOperation::Stop { name: service_name() }),
    }
}

/// The states the service manager reports for a service.
#[derive(Debug, Clone, Copy, PartialEq, Eq, Structural)]
pub enum ServiceState {
    Stopped,
    StartPending,
    StopPending,
    Running,
    ContinuePending,
    PausePending,
    Paused,
}

/// A service that is not stopped is stopped before it is deleted or when
/// it is asked to stop.
pub fn needs_stop(current: ServiceState) -> (r: bool)
    ensures
        r == (current != ServiceState::Stopped),
{
    current != ServiceState::Stopped
}

/// How long to wait before querying the service state again, in milliseconds.
pub const STATE_POLL_MS: u64 = 250;

/// One round of waiting for a service to reach `expected`: `None` once it
/// has, else the milliseconds to wait before querying again.
pub fn wait_for_state_step(current: ServiceState, expected: ServiceState) -> (r: Option<u64>)
    ensures
        current == expected ==> r is None,
        current != expected ==> r == Some(STATE_POLL_MS),
{
    if current == expected {
        None
    } else {
        Some(STATE_POLL_MS)
    }
}

/// The control requests the service manager sends.
#[derive(Debug, Clone, Copy, PartialEq, Eq, Structural)]
pub enum ServiceControl {
    Stop,
    Interrogate,
    /// Any other request.
    Other,
}

/// The answer to a control request.
#[derive(Debug, Clone, Copy, PartialEq, Eq, Structural)]
pub enum ControlResult {
    NoError,
    NotImplemented,
}

/// How a control request is answered: `Stop` asks the client to shut down,
/// `Interrogate` is acknowledged, anything else is not implemented. The
/// flag says whether to request a shutdown.
pub fn control_reply(control: ServiceControl) -> (r: (bool, ControlResult))
    ensures
        r.0 == (control == ServiceControl::Stop),
        r.1 == if control == ServiceControl::Other {
            ControlResult::NotImplemented
        } else {
            ControlResult::NoError
        },
{
    match control {
        ServiceControl::Stop => (true, ControlResult::NoError),
        ServiceControl::Interrogate => (false, ControlResult::NoError),
        ServiceControl::Other => (false, ControlResult::NotImplemented),
    }
}

/// The stages of a service run.
#[derive(Debug, Clone, Copy, PartialEq, Eq, Structural)]
pub enum ServiceStage {
    /// Registered, reading its settings.
    Starting,
    /// The client runs.
    Running,
    /// The client has stopped.
    Stopped,
}

/// The status a service reports to the service manager.
#[derive(Debug, Clone, Copy, PartialEq, Eq, Structural)]
pub struct StatusReport {
    pub service_type: ServiceType,
    pub state: ServiceState,
    /// Whether the service accepts a stop request.
    pub accepts_stop: bool,
    pub exit_code: u32,
    pub checkpoint: u32,
    /// In seconds.
    pub wait_hint: u64,
    /// The process the service runs in; `None` leaves it to the manager.
    pub process_id: Option<u32>,
}

/// The status reported at each stage: only a running service accepts a
/// stop request; throughout, the service runs in its own process, the exit
/// code and checkpoint are 0, the wait hint is five seconds and no process
/// id is given.
pub fn status_report(stage: ServiceStage) -> (r: StatusReport)
    ensures
        r.state == match stage {
            ServiceStage::Starting => ServiceState::StartPending,
            ServiceStage::Running => ServiceState::Running,
            ServiceStage::Stopped => ServiceState::Stopped,
        },
        r.accepts_stop == (stage == ServiceStage::Running),
        r.exit_code == 0,
        r.checkpoint == 0,
        r.wait_hint == 5,
        r.service_type == ServiceType::OwnProcess,
        r.process_id is None,
{
    let (state, accepts_stop) = match stage {
        ServiceStage::Starting => (ServiceState::StartPending, false),
        ServiceStage::Running => (ServiceState::Running, true),
        ServiceStage::Stopped => (ServiceState::Stopped, false),
    };
    StatusReport {
        service_type: ServiceType::OwnProcess,
        state,
        accepts_stop,
        exit_code: 0,
        checkpoint: 0,
        wait_hint: 5,
        process_id: None,
    }
}

} // verus!

use drcom4scut::supervisor::{
    relay_step, worker_step, Generator, GeneratorAction, GeneratorEvent, GeneratorPhase,
    Received, RelayAction, WorkerAction, WorkerEvent, WorkerPhase,
};
use drcom4scut::util::State;

#[test]
fn worker_runs_until_quit() {
    let (p, a) = worker_step(WorkerPhase::Ready, WorkerEvent::Checked { shutdown: false });
    assert_eq!((p, a), (WorkerPhase::Running, WorkerAction::StartProcess));
    let (p, a) = worker_step(p, WorkerEvent::Ended(State::Quit));
    assert_eq!((p, a), (WorkerPhase::Finished, WorkerAction::Exit));
}

#[test]
fn worker_retries_after_failure() {
    let (p, a) = worker_step(WorkerPhase::Running, WorkerEvent::Ended(State::Stop));
    assert_eq!((p, a), (WorkerPhase::Backoff, WorkerAction::ReportFailureAndBackoff));
    let (p, a) = worker_step(p, WorkerEvent::BackoffEnded(true));
    assert_eq!((p, a), (WorkerPhase::Ready, WorkerAction::Check));
    let (p, _) = worker_step(WorkerPhase::Running, WorkerEvent::Ended(State::Success));
    assert_eq!(p, WorkerPhase::Backoff);
}

#[test]
fn worker_sleeps_until_wake_time() {
    let (p, a) = worker_step(WorkerPhase::Running, WorkerEvent::Ended(State::Sleep));
    assert_eq!((p, a), (WorkerPhase::AwaitingWake, WorkerAction::SleepUntilWake));
    assert_eq!(worker_step(p, WorkerEvent::WakeEnded(true)), (WorkerPhase::Ready, WorkerAction::Check));
    assert_eq!(worker_step(p, WorkerEvent::WakeEnded(false)), (WorkerPhase::Backoff, WorkerAction::Backoff));
}

#[test]
fn worker_stops_on_shutdown() {
    assert_eq!(
        worker_step(WorkerPhase::Ready, WorkerEvent::Checked { shutdown: true }),
        (WorkerPhase::Finished, WorkerAction::Exit)
    );
    assert_eq!(
        worker_step(WorkerPhase::Backoff, WorkerEvent::BackoffEnded(false)),
        (WorkerPhase::Finished, WorkerAction::Exit)
    );
    assert_eq!(
        worker_step(WorkerPhase::Finished, WorkerEvent::Checked { shutdown: false }),
        (WorkerPhase::Finished, WorkerAction::Exit)
    );
    assert_eq!(
        worker_step(WorkerPhase::Ready, WorkerEvent::Ended(State::Quit)),
        (WorkerPhase::Ready, WorkerAction::Ignore)
    );
}

#[test]
fn eap_generator_refreshes_device_after_restart() {
    let g = Generator::new(true);
    let (g, a) = g.step(GeneratorEvent::Checked { shutdown: false });
    assert_eq!(a, GeneratorAction::SpawnWorker);
    let (g, a) = g.step(GeneratorEvent::WorkerEnded { shutdown: false });
    assert_eq!(a, GeneratorAction::ReportWorkerAndBackoff);
    let (g, a) = g.step(GeneratorEvent::BackoffEnded(true));
    assert_eq!(a, GeneratorAction::Check);
    assert_eq!(g.phase, GeneratorPhase::Start { refresh: true });
    let (g, a) = g.step(GeneratorEvent::Checked { shutdown: false });
    assert_eq!(a, GeneratorAction::FindDevice);
    let (g2, a) = g.step(GeneratorEvent::DeviceFound(false));
    assert_eq!(a, GeneratorAction::ReportDeviceAndBackoff);
    assert_eq!(g2.phase, GeneratorPhase::Backoff);
    let (_, a) = g.step(GeneratorEvent::DeviceFound(true));
    assert_eq!(a, GeneratorAction::SpawnWorker);
}

#[test]
fn udp_generator_never_looks_up_device() {
    let g = Generator::new(false);
    let (g, _) = g.step(GeneratorEvent::Checked { shutdown: false });
    let (g, _) = g.step(GeneratorEvent::WorkerEnded { shutdown: false });
    let (g, _) = g.step(GeneratorEvent::BackoffEnded(true));
    let (g, a) = g.step(GeneratorEvent::Checked { shutdown: false });
    assert_eq!(a, GeneratorAction::SpawnWorker);
    let (g, a) = g.step(GeneratorEvent::WorkerEnded { shutdown: true });
    assert_eq!(a, GeneratorAction::Exit);
    assert_eq!(g.phase, GeneratorPhase::Done);
}

#[test]
fn relay_forwards_only_success() {
    assert_eq!(relay_step(Received::Message(State::Success)), RelayAction::ForwardAndStartUdp);
    assert_eq!(relay_step(Received::Message(State::Sleep)), RelayAction::KeepWaiting);
    assert_eq!(relay_step(Received::Timeout), RelayAction::KeepWaiting);
    assert_eq!(relay_step(Received::Disconnected), RelayAction::Fail);
}

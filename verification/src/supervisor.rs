//! The decisions of the client's run loop. Each EAP or UDP process is run
//! by a worker loop, each worker loop by a generator that restarts it when
//! it dies, and the main thread relays the first successful authentication
//! from the EAP side to the UDP side. The loops themselves (threads,
//! channels, sleeping) are driven from outside: they report events and
//! perform the actions these machines return.
use crate::util::State;
use vstd::prelude::*;

verus! {

// ------------------------------------------------------------ worker loop

/// Where a worker loop stands.
#[derive(Debug, Clone, Copy, PartialEq, Eq, Structural)]
pub enum WorkerPhase {
    /// About to check for shutdown before (re)starting the process.
    Ready,
    /// The process is running.
    Running,
    /// The process asked to sleep until the configured time of day.
    AwaitingWake,
    /// Waiting the reconnect interval before starting again.
    Backoff,
    /// The loop is over.
    Finished,
}

/// What a worker loop observed.
#[derive(Debug, Clone, Copy, PartialEq, Eq, Structural)]
pub enum WorkerEvent {
    /// Whether shutdown was requested, as checked at the top of the loop.
    Checked { shutdown: bool },
    /// The process returned this state.
    Ended(State),
    /// The wait for the time of day ended: `true` when the time came,
    /// `false` when shutdown cut it short.
    WakeEnded(bool),
    /// The reconnect wait ended: `true` when it ran out, `false` when
    /// shutdown cut it short.
    BackoffEnded(bool),
}

/// What a worker loop does next.
#[derive(Debug, Clone, Copy, PartialEq, Eq, Structural)]
pub enum WorkerAction {
    /// Check whether shutdown was requested.
    Check,
    /// Start (or restart) the process.
    StartProcess,
    /// Report that the process asked to sleep, and wait for the time of day.
    SleepUntilWake,
    /// Report that the process failed, and wait the reconnect interval.
    ReportFailureAndBackoff,
    /// Wait the reconnect interval.
    Backoff,
    /// Leave the loop.
    Exit,
    /// The event does not belong to this phase: nothing to do.
    Ignore,
}

/// The transitions of a worker loop. A process that asks to sleep is
/// restarted at the next time of day; one that quits ends the loop; any
/// other outcome is a failure, retried after the reconnect interval. A
/// requested shutdown ends the loop at the next check or wait.
pub open spec fn worker_next(phase: WorkerPhase, event: WorkerEvent) -> (WorkerPhase, WorkerAction) {
    match (phase, event) {
        (WorkerPhase::Ready, WorkerEvent::Checked { shutdown }) => if shutdown {
            (WorkerPhase::Finished, WorkerAction::Exit)
        } else {
            (WorkerPhase::Running, WorkerAction::StartProcess)
        },
        (WorkerPhase::Running, WorkerEvent::Ended(s)) => match s {
            State::Sleep => (WorkerPhase::AwaitingWake, WorkerAction::SleepUntilWake),
            State::Quit => (WorkerPhase::Finished, WorkerAction::Exit),
            _ => (WorkerPhase::Backoff, WorkerAction::ReportFailureAndBackoff),
        },
        (WorkerPhase::AwaitingWake, WorkerEvent::WakeEnded(reached)) => if reached {
            (WorkerPhase::Ready, WorkerAction::Check)
        } else {
            (WorkerPhase::Backoff, WorkerAction::Backoff)
        },
        (WorkerPhase::Backoff, WorkerEvent::BackoffEnded(ran_out)) => if ran_out {
            (WorkerPhase::Ready, WorkerAction::Check)
        } else {
            (WorkerPhase::Finished, WorkerAction::Exit)
        },
        (WorkerPhase::Finished, _) => (WorkerPhase::Finished, WorkerAction::Exit),
        _ => (phase, WorkerAction::Ignore),
    }
}

/// One step of a worker loop.
pub fn worker_step(phase: WorkerPhase, event: WorkerEvent) -> (r: (WorkerPhase, WorkerAction))
    ensures
        r == worker_next(phase, event),
{
    match (phase, event) {
        (WorkerPhase::Ready, WorkerEvent::Checked { shutdown }) => if shutdown {
            (WorkerPhase::Finished, WorkerAction::Exit)
        } else {
            (WorkerPhase::Running, WorkerAction::StartProcess)
        },
        (WorkerPhase::Running, WorkerEvent::Ended(s)) => match s {
            State::Sleep => (WorkerPhase::AwaitingWake, WorkerAction::SleepUntilWake),
            State::Quit => (WorkerPhase::Finished, WorkerAction::Exit),
            _ => (WorkerPhase::Backoff, WorkerAction::ReportFailureAndBackoff),
        },
        (WorkerPhase::AwaitingWake, WorkerEvent::WakeEnded(reached)) => if reached {
            (WorkerPhase::Ready, WorkerAction::Check)
        } else {
            (WorkerPhase::Backoff, WorkerAction::Backoff)
        },
        (WorkerPhase::Backoff, WorkerEvent::BackoffEnded(ran_out)) => if ran_out {
            (WorkerPhase::Ready, WorkerAction::Check)
        } else {
            (WorkerPhase::Finished, WorkerAction::Exit)
        },
        (WorkerPhase::Finished, _) => (WorkerPhase::Finished, WorkerAction::Exit),
        _ => (phase, WorkerAction::Ignore),
    }
}

// --------------------------------------------------------------- generator

/// Where a generator (the loop that restarts a worker) stands.
#[derive(Debug, Clone, Copy, PartialEq, Eq, Structural)]
pub enum GeneratorPhase {
    /// About to check for shutdown; `refresh` when the network device must
    /// be looked up again before the worker is restarted.
    Start { refresh: bool },
    /// Looking up the network device.
    FindingDevice,
    /// The worker runs; the generator waits for it to end.
    Supervising,
    /// Waiting the reconnect interval.
    Backoff,
    /// The generator is over.
    Done,
}

/// What a generator observed.
#[derive(Debug, Clone, Copy, PartialEq, Eq, Structural)]
pub enum GeneratorEvent {
    Checked { shutdown: bool },
    /// The device lookup succeeded or failed.
    DeviceFound(bool),
    /// The worker ended; whether shutdown was requested by then.
    WorkerEnded { shutdown: bool },
    /// The reconnect wait ran out (`true`) or was cut short by shutdown.
    BackoffEnded(bool),
}

/// What a generator does next.
#[derive(Debug, Clone, Copy, PartialEq, Eq, Structural)]
pub enum GeneratorAction {
    Check,
    FindDevice,
    SpawnWorker,
    /// Report that the device was not found, and wait.
    ReportDeviceAndBackoff,
    /// Report that the worker died, and wait.
    ReportWorkerAndBackoff,
    Exit,
    Ignore,
}

/// A generator: `refreshes` says whether the device is looked up again
/// after a worker died (the EAP side does, the UDP side does not).
#[derive(Debug, Clone, Copy, PartialEq, Eq, Structural)]
pub struct Generator {
    pub refreshes: bool,
    pub phase: GeneratorPhase,
}

/// The transitions of a generator. A worker that ends while no shutdown is
/// requested is a fatal error: after the reconnect interval the generator
/// starts over, looking the device up first if it refreshes.
pub open spec fn generator_next(g: Generator, event: GeneratorEvent) -> (Generator, GeneratorAction) {
    let at = |p: GeneratorPhase| Generator { refreshes: g.refreshes, phase: p };
    match (g.phase, event) {
        (GeneratorPhase::Start { refresh }, GeneratorEvent::Checked { shutdown }) => if shutdown {
            (at(GeneratorPhase::Done), GeneratorAction::Exit)
        } else if refresh {
            (at(GeneratorPhase::FindingDevice), GeneratorAction::FindDevice)
        } else {
            (at(GeneratorPhase::Supervising), GeneratorAction::SpawnWorker)
        },
        (GeneratorPhase::FindingDevice, GeneratorEvent::DeviceFound(found)) => if found {
            (at(GeneratorPhase::Supervising), GeneratorAction::SpawnWorker)
        } else {
            (at(GeneratorPhase::Backoff), GeneratorAction::ReportDeviceAndBackoff)
        },
        (GeneratorPhase::Supervising, GeneratorEvent::WorkerEnded { shutdown }) => if shutdown {
            (at(GeneratorPhase::Done), GeneratorAction::Exit)
        } else {
            (at(GeneratorPhase::Backoff), GeneratorAction::ReportWorkerAndBackoff)
        },
        (GeneratorPhase::Backoff, GeneratorEvent::BackoffEnded(ran_out)) => if ran_out {
            (at(GeneratorPhase::Start { refresh: g.refreshes }), GeneratorAction::Check)
        } else {
            (at(GeneratorPhase::Done), GeneratorAction::Exit)
        },
        (GeneratorPhase::Done, _) => (g, GeneratorAction::Exit),
        _ => (g, GeneratorAction::Ignore),
    }
}

impl Generator {
    /// A new generator; the first start never looks the device up.
    pub fn new(refreshes: bool) -> (g: Generator)
        ensures
            g == (Generator { refreshes, phase: GeneratorPhase::Start { refresh: false } }),
    {
        Generator { refreshes, phase: GeneratorPhase::Start { refresh: false } }
    }

    /// One step of the generator.
    pub fn step(self, event: GeneratorEvent) -> (r: (Generator, GeneratorAction))
        ensures
            r == generator_next(self, event),
    {
        let refreshes = self.refreshes;
        match (self.phase, event) {
            (GeneratorPhase::Start { refresh }, GeneratorEvent::Checked { shutdown }) => if shutdown {
                (Generator { refreshes, phase: GeneratorPhase::Done }, GeneratorAction::Exit)
            } else if refresh {
                (
                    Generator { refreshes, phase: GeneratorPhase::FindingDevice },
                    GeneratorAction::FindDevice,
                )
            } else {
                (
                    Generator { refreshes, phase: GeneratorPhase::Supervising },
                    GeneratorAction::SpawnWorker,
                )
            },
            (GeneratorPhase::FindingDevice, GeneratorEvent::DeviceFound(found)) => if found {
                (
                    Generator { refreshes, phase: GeneratorPhase::Supervising },
                    GeneratorAction::SpawnWorker,
                )
            } else {
                (
                    Generator { refreshes, phase: GeneratorPhase::Backoff },
                    GeneratorAction::ReportDeviceAndBackoff,
                )
            },
            (GeneratorPhase::Supervising, GeneratorEvent::WorkerEnded { shutdown }) => if shutdown {
                (Generator { refreshes, phase: GeneratorPhase::Done }, GeneratorAction::Exit)
            } else {
                (
                    Generator { refreshes, phase: GeneratorPhase::Backoff },
                    GeneratorAction::ReportWorkerAndBackoff,
                )
            },
            (GeneratorPhase::Backoff, GeneratorEvent::BackoffEnded(ran_out)) => if ran_out {
                (
                    Generator { refreshes, phase: GeneratorPhase::Start { refresh: refreshes } },
                    GeneratorAction::Check,
                )
            } else {
                (Generator { refreshes, phase: GeneratorPhase::Done }, GeneratorAction::Exit)
            },
            (GeneratorPhase::Done, _) => (self, GeneratorAction::Exit),
            _ => (self, GeneratorAction::Ignore),
        }
    }
}

// ------------------------------------------------------------------ relay

/// What the main thread got while waiting for the EAP side.
#[derive(Debug, Clone, Copy, PartialEq, Eq, Structural)]
pub enum Received {
    Message(State),
    Timeout,
    Disconnected,
}

/// What the main thread does with it.
#[derive(Debug, Clone, Copy, PartialEq, Eq, Structural)]
pub enum RelayAction {
    /// Pass the message on to the UDP side and start it.
    ForwardAndStartUdp,
    /// Keep waiting (after checking for shutdown).
    KeepWaiting,
    /// The EAP side is gone: fail.
    Fail,
}

/// Only a successful authentication is passed on to the UDP side.
pub open spec fn relay_next(received: Received) -> RelayAction {
    match received {
        Received::Message(State::Success) => RelayAction::ForwardAndStartUdp,
        Received::Message(_) => RelayAction::KeepWaiting,
        Received::Timeout => RelayAction::KeepWaiting,
        Received::Disconnected => RelayAction::Fail,
    }
}

/// Decides what to do with what the main thread received.
pub fn relay_step(received: Received) -> (r: RelayAction)
    ensures
        r == relay_next(received),
{
    match received {
        Received::Message(State::Success) => RelayAction::ForwardAndStartUdp,
        Received::Message(_) => RelayAction::KeepWaiting,
        Received::Timeout => RelayAction::KeepWaiting,
        Received::Disconnected => RelayAction::Fail,
    }
}

// ------------------------------------------------------------------- laws

/// The event a worker in `phase` observes once shutdown has been requested.
pub open spec fn worker_shutdown_event(phase: WorkerPhase) -> WorkerEvent {
    match phase {
        WorkerPhase::AwaitingWake => WorkerEvent::WakeEnded(false),
        WorkerPhase::Backoff => WorkerEvent::BackoffEnded(false),
        _ => WorkerEvent::Checked { shutdown: true },
    }
}

/// A finished worker loop stays finished, whatever it observes.
pub proof fn lemma_worker_finished_stays(event: WorkerEvent)
    ensures
        worker_next(WorkerPhase::Finished, event) == (WorkerPhase::Finished, WorkerAction::Exit),
{
}

/// Once shutdown is requested, a worker loop that is not running a process
/// is finished within two steps.
pub proof fn lemma_worker_shutdown(phase: WorkerPhase)
    requires
        phase != WorkerPhase::Running,
    ensures
        ({
            let p1 = worker_next(phase, worker_shutdown_event(phase)).0;
            let p2 = worker_next(p1, worker_shutdown_event(p1)).0;
            p2 == WorkerPhase::Finished
        }),
{
}

/// A process that quits ends its worker loop; one that asks to sleep is
/// neither restarted at once nor given up on.
pub proof fn lemma_worker_process_outcome(s: State)
    ensures
        s == State::Quit ==> worker_next(WorkerPhase::Running, WorkerEvent::Ended(s)).0
            == WorkerPhase::Finished,
        s == State::Sleep ==> worker_next(WorkerPhase::Running, WorkerEvent::Ended(s))
            == (WorkerPhase::AwaitingWake, WorkerAction::SleepUntilWake),
        s != State::Quit && s != State::Sleep ==> worker_next(
            WorkerPhase::Running,
            WorkerEvent::Ended(s),
        ) == (WorkerPhase::Backoff, WorkerAction::ReportFailureAndBackoff),
{
}

/// What each action of a worker loop is taken on, over every phase and
/// event: a process is started only after a check that found no shutdown;
/// only a process that asked to sleep waits for the time of day; exactly
/// the processes that ended in neither sleep nor quit are reported as
/// failed and retried after the reconnect interval; and the loop is
/// finished exactly when it exits.
pub proof fn lemma_worker_actions(phase: WorkerPhase, event: WorkerEvent)
    ensures
        (worker_next(phase, event).1 == WorkerAction::StartProcess) <==> (phase
            == WorkerPhase::Ready && event == (WorkerEvent::Checked { shutdown: false })),
        (worker_next(phase, event).1 == WorkerAction::SleepUntilWake) <==> (phase
            == WorkerPhase::Running && event == WorkerEvent::Ended(State::Sleep)),
        (worker_next(phase, event).1 == WorkerAction::ReportFailureAndBackoff) <==> (phase
            == WorkerPhase::Running && event is Ended && event->Ended_0 != State::Sleep && event->Ended_0
            != State::Quit),
        (worker_next(phase, event).0 == WorkerPhase::Finished) <==> (worker_next(phase, event).1
            == WorkerAction::Exit),
        worker_next(phase, event).1 == WorkerAction::ReportFailureAndBackoff
            ==> worker_next(phase, event).0 == WorkerPhase::Backoff,
        worker_next(phase, event).1 == WorkerAction::SleepUntilWake ==> worker_next(
            phase,
            event,
        ).0 == WorkerPhase::AwaitingWake,
{
}

/// Only a successful authentication is passed on and starts the UDP side;
/// a lost EAP side is a failure; every other message, and a timeout, keeps
/// the main thread waiting.
pub proof fn lemma_relay_outcome(received: Received)
    ensures
        (relay_next(received) == RelayAction::ForwardAndStartUdp) <==> (received
            == Received::Message(State::Success)),
        (relay_next(received) == RelayAction::Fail) <==> (received == Received::Disconnected),
        (relay_next(received) == RelayAction::KeepWaiting) <==> (received
            != Received::Message(State::Success) && received != Received::Disconnected),
{
}

/// A generator that is done stays done; a generator that refreshes looks
/// the device up again after every restart, one that does not never does.
pub proof fn lemma_generator_restart(g: Generator, event: GeneratorEvent)
    ensures
        g.phase == GeneratorPhase::Done ==> generator_next(g, event).0 == g,
        generator_next(g, event).0.refreshes == g.refreshes,
        g.phase == GeneratorPhase::Backoff && event == GeneratorEvent::BackoffEnded(true)
            ==> generator_next(g, event).0.phase == (GeneratorPhase::Start { refresh: g.refreshes }),
{
}

/// What each action of a generator is taken on, over every state and
/// event: a worker is spawned only after a check that found no shutdown
/// (without a pending lookup) or after the device was found; the device is
/// looked up only when a lookup is pending; a worker that ends without a
/// shutdown is reported and retried, one that ends on shutdown ends the
/// generator; and the generator is done exactly when it exits.
pub proof fn lemma_generator_actions(g: Generator, event: GeneratorEvent)
    ensures
        (generator_next(g, event).1 == GeneratorAction::SpawnWorker) <==> ((g.phase
            == (GeneratorPhase::Start { refresh: false }) && event == (GeneratorEvent::Checked {
            shutdown: false,
        })) || (g.phase == GeneratorPhase::FindingDevice && event == GeneratorEvent::DeviceFound(
            true,
        ))),
        (generator_next(g, event).1 == GeneratorAction::FindDevice) <==> (g.phase
            == (GeneratorPhase::Start { refresh: true }) && event == (GeneratorEvent::Checked {
            shutdown: false,
        })),
        (generator_next(g, event).1 == GeneratorAction::ReportWorkerAndBackoff) <==> (g.phase
            == GeneratorPhase::Supervising && event == (GeneratorEvent::WorkerEnded {
            shutdown: false,
        })),
        (generator_next(g, event).1 == GeneratorAction::ReportDeviceAndBackoff) <==> (g.phase
            == GeneratorPhase::FindingDevice && event == GeneratorEvent::DeviceFound(false)),
        (generator_next(g, event).0.phase == GeneratorPhase::Done) <==> (generator_next(g, event).1
            == GeneratorAction::Exit),
        g.phase == GeneratorPhase::Supervising && event == (GeneratorEvent::WorkerEnded {
            shutdown: true,
        }) ==> generator_next(g, event).0.phase == GeneratorPhase::Done,
        g.phase is Start && event == (GeneratorEvent::Checked { shutdown: true }) ==> generator_next(
            g,
            event,
        ).0.phase == GeneratorPhase::Done,
{
}

/// A generator that does not refresh never has a device lookup pending.
pub open spec fn generator_inv(g: Generator) -> bool {
    !g.refreshes ==> g.phase != (GeneratorPhase::Start { refresh: true }) && g.phase
        != GeneratorPhase::FindingDevice
}

/// A new generator keeps the invariant, every step keeps it, and under it a
/// generator that does not refresh never looks the device up.
pub proof fn lemma_generator_inv(g: Generator, event: GeneratorEvent, refreshes: bool)
    ensures
        generator_inv(Generator { refreshes, phase: GeneratorPhase::Start { refresh: false } }),
        generator_inv(g) ==> generator_inv(generator_next(g, event).0),
        generator_inv(g) && !g.refreshes ==> generator_next(g, event).1
            != GeneratorAction::FindDevice,
{
}

} // verus!

//! Worker lifecycle: spawning, running, closing, closed. A worker that
//! reaps with exit code zero closes cleanly; an I/O error on either lane,
//! a failed spawn, or any other exit counts as a crash. The closed state
//! is terminal.

use vstd::prelude::*;

verus! {

/// Where the worker stands.
#[derive(Debug, Copy, Clone, PartialEq, Eq, Structural)]
pub enum WorkerLifecycle {
    /// The child is being set up; no channel is ready yet.
    Spawning,
    /// Exec succeeded and both channel tasks are live.
    Running,
    /// An explicit close or a first I/O error; pending requests fail and
    /// no new ones are accepted.
    Closing,
    /// Terminal: the child is gone. `crashed` is false only for a clean
    /// exit.
    Closed { crashed: bool },
}

/// What can happen to the worker.
#[derive(Debug, Copy, Clone, PartialEq, Eq, Structural)]
pub enum WorkerEvent {
    /// Exec succeeded and both channel tasks are live.
    ChannelsLive,
    /// The owner asked for a close.
    CloseRequested,
    /// An I/O error on either pipe; the worker counts as lost.
    IoError,
    /// The child was reaped; `exit_ok` when its code was zero.
    Reaped { exit_ok: bool },
}

/// The lifecycle's transition rule. The closed state absorbs everything;
/// a reap is terminal from every state; an I/O error before the channels
/// were ready means the worker never ran and counts as a crash.
pub open spec fn lifecycle_step(state: WorkerLifecycle, event: WorkerEvent) -> WorkerLifecycle {
    match state {
        WorkerLifecycle::Closed { crashed } => WorkerLifecycle::Closed { crashed },
        _ => match event {
            WorkerEvent::ChannelsLive => if state is Spawning {
                WorkerLifecycle::Running
            } else {
                state
            },
            WorkerEvent::CloseRequested => WorkerLifecycle::Closing,
            WorkerEvent::IoError => if state is Spawning {
                WorkerLifecycle::Closed { crashed: true }
            } else {
                WorkerLifecycle::Closing
            },
            WorkerEvent::Reaped { exit_ok } => WorkerLifecycle::Closed { crashed: !exit_ok },
        },
    }
}

impl WorkerLifecycle {
    /// Only a running worker takes new requests: none are accepted while
    /// closing or closed, and none before the channels are live.
    pub open spec fn accepts_requests_spec(self) -> bool {
        self is Running
    }

    pub fn accepts_requests(&self) -> (r: bool)
        ensures
            r == self.accepts_requests_spec(),
    {
        match self {
            WorkerLifecycle::Running => true,
            _ => false,
        }
    }

    /// Advances the lifecycle by one event, exactly as `lifecycle_step`
    /// says.
    pub fn advance(&mut self, event: WorkerEvent)
        ensures
            *final(self) == lifecycle_step(*old(self), event),
    {
        let next = match *self {
            WorkerLifecycle::Closed { crashed } => WorkerLifecycle::Closed { crashed },
            WorkerLifecycle::Spawning => match event {
                WorkerEvent::ChannelsLive => WorkerLifecycle::Running,
                WorkerEvent::CloseRequested => WorkerLifecycle::Closing,
                WorkerEvent::IoError => WorkerLifecycle::Closed { crashed: true },
                WorkerEvent::Reaped { exit_ok } => WorkerLifecycle::Closed { crashed: !exit_ok },
            },
            _ => match event {
                WorkerEvent::ChannelsLive => *self,
                WorkerEvent::CloseRequested => WorkerLifecycle::Closing,
                WorkerEvent::IoError => WorkerLifecycle::Closing,
                WorkerEvent::Reaped { exit_ok } => WorkerLifecycle::Closed { crashed: !exit_ok },
            },
        };
        *self = next;
    }
}

/// The closed state is terminal: no event leaves it, and once closed the
/// worker never accepts a request again.
pub proof fn lemma_closed_is_terminal(crashed: bool, event: WorkerEvent)
    ensures
        lifecycle_step(WorkerLifecycle::Closed { crashed }, event) == (WorkerLifecycle::Closed {
            crashed,
        }),
        !lifecycle_step(WorkerLifecycle::Closed { crashed }, event).accepts_requests_spec(),
{
}

/// A lost worker never accepts a request again: after an I/O error the
/// lifecycle stands in `Closing` — or, before the channels were ready,
/// in a crash — and no later event brings it back to `Running`.
pub proof fn lemma_io_error_stops_requests(state: WorkerLifecycle, event: WorkerEvent)
    ensures
        !lifecycle_step(state, WorkerEvent::IoError).accepts_requests_spec(),
        !lifecycle_step(lifecycle_step(state, WorkerEvent::IoError), event).accepts_requests_spec(),
{
}

} // verus!

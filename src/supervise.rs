use vstd::prelude::*;

verus! {

/// Where a connection supervisor stands.
#[derive(Clone, Copy, Debug, PartialEq, Eq, Structural)]
pub enum SupervisorPhase {
    /// Watching the transport's handle; nothing to do while it is present.
    Watching,
    /// A connection attempt is under way.
    Connecting,
    /// A fresh connection is being set up (the bus subscriptions).
    SettingUp,
    /// Waiting out the retry delay after a failed attempt.
    Backoff,
    /// The handle can no longer be watched; the supervisor has ended.
    Stopped,
}

/// What the supervisor learns between steps.
#[derive(Clone, Copy, Debug, PartialEq, Eq, Structural)]
pub enum SupervisorEvent {
    /// The handle was looked at: whether a live connection is installed.
    HandleSeen(bool),
    /// The handle's watch has closed for good.
    WatchClosed,
    ConnectSucceeded,
    ConnectFailed,
    SetupSucceeded,
    SetupFailed,
    DelayElapsed,
}

/// What the supervisor asks the program to do next.
#[derive(Clone, Copy, Debug, PartialEq, Eq, Structural)]
pub enum SupervisorAction {
    /// Look at the handle again once it may have changed.
    Watch,
    /// Attempt a connection.
    Connect,
    /// Set up the fresh connection.
    SetUp,
    /// Install the fresh connection in the handle and raise the signal.
    Install,
    /// Drop any fresh connection and wait out the retry delay.
    Backoff,
    /// End the supervisor.
    Stop,
}

/// The action that a phase keeps asking for until its event comes.
pub open spec fn phase_action(phase: SupervisorPhase) -> SupervisorAction {
    match phase {
        SupervisorPhase::Watching => SupervisorAction::Watch,
        SupervisorPhase::Connecting => SupervisorAction::Connect,
        SupervisorPhase::SettingUp => SupervisorAction::SetUp,
        SupervisorPhase::Backoff => SupervisorAction::Backoff,
        SupervisorPhase::Stopped => SupervisorAction::Stop,
    }
}

/// The supervisor's transition: the next phase, and the action that it asks
/// for. A transport that needs no set-up is installed as soon as it connects;
/// an event that does not belong to the phase changes nothing.
pub open spec fn supervisor_next(
    needs_setup: bool,
    phase: SupervisorPhase,
    event: SupervisorEvent,
) -> (SupervisorPhase, SupervisorAction) {
    match (phase, event) {
        (SupervisorPhase::Watching, SupervisorEvent::HandleSeen(true)) => (
            SupervisorPhase::Watching,
            SupervisorAction::Watch,
        ),
        (SupervisorPhase::Watching, SupervisorEvent::HandleSeen(false)) => (
            SupervisorPhase::Connecting,
            SupervisorAction::Connect,
        ),
        (SupervisorPhase::Watching, SupervisorEvent::WatchClosed) => (
            SupervisorPhase::Stopped,
            SupervisorAction::Stop,
        ),
        (SupervisorPhase::Connecting, SupervisorEvent::ConnectSucceeded) => if needs_setup {
            (SupervisorPhase::SettingUp, SupervisorAction::SetUp)
        } else {
            (SupervisorPhase::Watching, SupervisorAction::Install)
        },
        (SupervisorPhase::Connecting, SupervisorEvent::ConnectFailed) => (
            SupervisorPhase::Backoff,
            SupervisorAction::Backoff,
        ),
        (SupervisorPhase::SettingUp, SupervisorEvent::SetupSucceeded) => (
            SupervisorPhase::Watching,
            SupervisorAction::Install,
        ),
        (SupervisorPhase::SettingUp, SupervisorEvent::SetupFailed) => (
            SupervisorPhase::Backoff,
            SupervisorAction::Backoff,
        ),
        (SupervisorPhase::Backoff, SupervisorEvent::DelayElapsed) => (
            SupervisorPhase::Watching,
            SupervisorAction::Watch,
        ),
        _ => (phase, phase_action(phase)),
    }
}

/// The reconnect policy of one transport: retry without end, at a fixed
/// delay, whenever the transport's handle is found empty.
pub struct Supervisor {
    pub phase: SupervisorPhase,
    /// Whether a fresh connection must be set up before it is installed.
    pub needs_setup: bool,
    /// The delay between attempts, in milliseconds.
    pub retry_delay_ms: u64,
}

impl Supervisor {
    /// A supervisor that starts by looking at the handle.
    pub fn new(needs_setup: bool, retry_delay_ms: u64) -> (r: Supervisor)
        ensures
            r.phase == SupervisorPhase::Watching,
            r.needs_setup == needs_setup,
            r.retry_delay_ms == retry_delay_ms,
    {
        Supervisor { phase: SupervisorPhase::Watching, needs_setup, retry_delay_ms }
    }

    /// Takes in an event and gives the next action.
    pub fn step(&mut self, event: SupervisorEvent) -> (r: SupervisorAction)
        ensures
            (final(self).phase, r) == supervisor_next(old(self).needs_setup, old(self).phase, event),
            final(self).needs_setup == old(self).needs_setup,
            final(self).retry_delay_ms == old(self).retry_delay_ms,
    {
        let (phase, action) = match (self.phase, event) {
            (SupervisorPhase::Watching, SupervisorEvent::HandleSeen(true)) => (
                SupervisorPhase::Watching,
                SupervisorAction::Watch,
            ),
            (SupervisorPhase::Watching, SupervisorEvent::HandleSeen(false)) => (
                SupervisorPhase::Connecting,
                SupervisorAction::Connect,
            ),
            (SupervisorPhase::Watching, SupervisorEvent::WatchClosed) => (
                SupervisorPhase::Stopped,
                SupervisorAction::Stop,
            ),
            (SupervisorPhase::Connecting, SupervisorEvent::ConnectSucceeded) => {
                if self.needs_setup {
                    (SupervisorPhase::SettingUp, SupervisorAction::SetUp)
                } else {
                    (SupervisorPhase::Watching, SupervisorAction::Install)
                }
            },
            (SupervisorPhase::Connecting, SupervisorEvent::ConnectFailed) => (
                SupervisorPhase::Backoff,
                SupervisorAction::Backoff,
            ),
            (SupervisorPhase::SettingUp, SupervisorEvent::SetupSucceeded) => (
                SupervisorPhase::Watching,
                SupervisorAction::Install,
            ),
            (SupervisorPhase::SettingUp, SupervisorEvent::SetupFailed) => (
                SupervisorPhase::Backoff,
                SupervisorAction::Backoff,
            ),
            (SupervisorPhase::Backoff, SupervisorEvent::DelayElapsed) => (
                SupervisorPhase::Watching,
                SupervisorAction::Watch,
            ),
            (p, _) => {
                let a = match p {
                    SupervisorPhase::Watching => SupervisorAction::Watch,
                    SupervisorPhase::Connecting => SupervisorAction::Connect,
                    SupervisorPhase::SettingUp => SupervisorAction::SetUp,
                    SupervisorPhase::Backoff => SupervisorAction::Backoff,
                    SupervisorPhase::Stopped => SupervisorAction::Stop,
                };
                (p, a)
            },
        };
        self.phase = phase;
        action
    }
}

/// What a read from the serial device gave.
#[derive(Clone, Copy, Debug, PartialEq, Eq, Structural)]
pub enum ReadOutcome {
    /// This many bytes arrived.
    Bytes(usize),
    TimedOut,
    /// Any other I/O error.
    Failed,
}

/// What a reader does after a read or a poll.
#[derive(Clone, Copy, Debug, PartialEq, Eq, Structural)]
pub enum ReadAction {
    /// Hand what arrived to the relay.
    Consume,
    /// No data yet: pause briefly and read again.
    Idle,
    /// Clear the handle and wait for a new connection.
    Disconnect,
}

/// The serial reader's decision: data is consumed, an empty read or a
/// timeout is no data yet, any other error ends the connection.
pub open spec fn read_action_of(outcome: ReadOutcome) -> ReadAction {
    match outcome {
        ReadOutcome::Bytes(n) => if n > 0 {
            ReadAction::Consume
        } else {
            ReadAction::Idle
        },
        ReadOutcome::TimedOut => ReadAction::Idle,
        ReadOutcome::Failed => ReadAction::Disconnect,
    }
}

/// Decides what the serial reader does after a read.
pub fn serial_read_action(outcome: ReadOutcome) -> (r: ReadAction)
    ensures
        r == read_action_of(outcome),
{
    match outcome {
        ReadOutcome::Bytes(n) => if n > 0 {
            ReadAction::Consume
        } else {
            ReadAction::Idle
        },
        ReadOutcome::TimedOut => ReadAction::Idle,
        ReadOutcome::Failed => ReadAction::Disconnect,
    }
}

/// What polling the bus's event stream gave.
#[derive(Clone, Copy, Debug, PartialEq, Eq, Structural)]
pub enum PollOutcome {
    /// A message published on a subscribed topic.
    Publish,
    /// Any other incoming packet.
    OtherIncoming,
    /// A packet that the client sent.
    Outgoing,
    /// The connection failed.
    Failed,
}

/// The bus reader's decision: a publish is relayed, other packets are only
/// observed, a failure ends the connection.
pub open spec fn poll_action_of(outcome: PollOutcome) -> ReadAction {
    match outcome {
        PollOutcome::Publish => ReadAction::Consume,
        PollOutcome::OtherIncoming => ReadAction::Idle,
        PollOutcome::Outgoing => ReadAction::Idle,
        PollOutcome::Failed => ReadAction::Disconnect,
    }
}

/// Decides what the bus reader does after a poll.
pub fn bus_poll_action(outcome: PollOutcome) -> (r: ReadAction)
    ensures
        r == poll_action_of(outcome),
{
    match outcome {
        PollOutcome::Publish => ReadAction::Consume,
        PollOutcome::OtherIncoming => ReadAction::Idle,
        PollOutcome::Outgoing => ReadAction::Idle,
        PollOutcome::Failed => ReadAction::Disconnect,
    }
}

/// The serial writer's decision after writing and flushing a frame: a
/// failure clears the handle, as a failed read does, so that the supervisor
/// reconnects; the message itself is not retried.
pub fn serial_write_clears_handle(write_ok: bool, flush_ok: bool) -> (r: bool)
    ensures
        r == !(write_ok && flush_ok),
{
    !(write_ok && flush_ok)
}

/// After a fatal read the serial reader gives up its connection; the
/// supervisor, finding the handle empty, attempts a new one at once, again
/// one retry delay after each failure, and installs the first that succeeds.
pub proof fn lemma_reconnect_after_fatal_read(delay: u64)
    ensures
        read_action_of(ReadOutcome::Failed) == ReadAction::Disconnect,
        supervisor_next(false, SupervisorPhase::Watching, SupervisorEvent::HandleSeen(false)) == (
            SupervisorPhase::Connecting,
            SupervisorAction::Connect,
        ),
        supervisor_next(false, SupervisorPhase::Connecting, SupervisorEvent::ConnectFailed) == (
            SupervisorPhase::Backoff,
            SupervisorAction::Backoff,
        ),
        supervisor_next(false, SupervisorPhase::Backoff, SupervisorEvent::DelayElapsed) == (
            SupervisorPhase::Watching,
            SupervisorAction::Watch,
        ),
        supervisor_next(false, SupervisorPhase::Connecting, SupervisorEvent::ConnectSucceeded) == (
            SupervisorPhase::Watching,
            SupervisorAction::Install,
        ),
        forall|n: usize|
            n > 0 ==> #[trigger] read_action_of(ReadOutcome::Bytes(n)) == ReadAction::Consume,
{
}

/// A supervisor never acts while the handle is present, and once stopped it
/// stays stopped.
pub proof fn lemma_supervisor_quiet(needs_setup: bool, event: SupervisorEvent)
    ensures
        supervisor_next(needs_setup, SupervisorPhase::Watching, SupervisorEvent::HandleSeen(true))
            == (SupervisorPhase::Watching, SupervisorAction::Watch),
        supervisor_next(needs_setup, SupervisorPhase::Stopped, event) == (
            SupervisorPhase::Stopped,
            SupervisorAction::Stop,
        ),
{
}

} // verus!

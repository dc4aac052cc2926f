//! The interactive relay between the local terminal and a remote channel:
//! one step of it, from what happened outside to what to do next.

use vstd::prelude::*;

verus! {

/// Bytes asked of the remote channel at a time.
pub const READ_BUFFER: usize = 2048;

/// Milliseconds to rest between two polls of an idle channel.
pub const POLL_PAUSE_MS: u64 = 5;

/// Where the relay stands.
#[derive(Clone, Copy, Debug, PartialEq, Eq, Structural)]
pub enum RelayState {
    /// No session; the terminal is in its ordinary mode.
    Idle,
    /// Raw mode has been asked for.
    RawMode,
    /// Bytes are pumped both ways.
    Relaying,
    /// The channel is being closed.
    Closing,
}

/// Mathematical value of a [`ReadOutcome`].
pub enum ReadSpec {
    Data(Seq<u8>),
    WouldBlock,
    Failed,
}

/// What one read of the remote channel gave.
#[derive(Debug)]
pub enum ReadOutcome {
    /// These bytes, possibly none.
    Data(Vec<u8>),
    /// Nothing for now.
    WouldBlock,
    /// An error other than that.
    Failed,
}

impl View for ReadOutcome {
    type V = ReadSpec;

    open spec fn view(&self) -> ReadSpec {
        match self {
            ReadOutcome::Data(bytes) => ReadSpec::Data(bytes@),
            ReadOutcome::WouldBlock => ReadSpec::WouldBlock,
            ReadOutcome::Failed => ReadSpec::Failed,
        }
    }
}

/// Mathematical value of a [`RelayEvent`].
pub enum EventSpec {
    Opened,
    RawModeEntered,
    RawModeRefused,
    LocalInput(Seq<u8>),
    RemoteRead { outcome: ReadSpec, eof: bool },
    Closed,
}

/// What happened outside since the last step.
#[derive(Debug)]
pub enum RelayEvent {
    /// A remote channel with a terminal and a shell is open.
    Opened,
    /// The terminal is in raw mode.
    RawModeEntered,
    /// The terminal would not enter raw mode.
    RawModeRefused,
    /// Every byte that was waiting from local input, in order of arrival.
    LocalInput(Vec<u8>),
    /// One read of the remote channel, and whether the channel then stood at
    /// its end.
    RemoteRead { outcome: ReadOutcome, eof: bool },
    /// The channel is closed, or would not close.
    Closed,
}

impl View for RelayEvent {
    type V = EventSpec;

    open spec fn view(&self) -> EventSpec {
        match self {
            RelayEvent::Opened => EventSpec::Opened,
            RelayEvent::RawModeEntered => EventSpec::RawModeEntered,
            RelayEvent::RawModeRefused => EventSpec::RawModeRefused,
            RelayEvent::LocalInput(bytes) => EventSpec::LocalInput(bytes@),
            RelayEvent::RemoteRead { outcome, eof } => EventSpec::RemoteRead {
                outcome: outcome@,
                eof: *eof,
            },
            RelayEvent::Closed => EventSpec::Closed,
        }
    }
}

/// Mathematical value of a [`RelayAction`].
pub enum ActionSpec {
    EnterRawMode,
    StartPumping,
    Forward { bytes: Seq<u8>, read_limit: usize },
    Deliver { bytes: Seq<u8>, pause_ms: u64 },
    DeliverAndClose { bytes: Seq<u8> },
    LeaveRawMode,
    Abort,
    GiveUp,
    Ignore,
}

/// What to do next.
#[derive(Debug)]
pub enum RelayAction {
    /// Put the terminal into raw mode.
    EnterRawMode,
    /// Make the channel non-blocking, start the reader of local input, and
    /// collect what it has.
    StartPumping,
    /// Write each of these bytes to the remote channel, passing over a
    /// byte that the channel will not take; then read the channel once, up
    /// to `read_limit` bytes.
    Forward { bytes: Vec<u8>, read_limit: usize },
    /// Write these bytes to local output and flush at once; rest for
    /// `pause_ms` milliseconds; then collect local input again.
    Deliver { bytes: Vec<u8>, pause_ms: u64 },
    /// Write these bytes to local output and flush at once; then close the
    /// channel and wait for the other side.
    DeliverAndClose { bytes: Vec<u8> },
    /// Put the terminal back into its ordinary mode; the session is over.
    LeaveRawMode,
    /// Put the terminal back into its ordinary mode and report the failed
    /// read; the session is over.
    Abort,
    /// Report that raw mode was refused; the session never began.
    GiveUp,
    /// The event does not belong here; nothing is to be done.
    Ignore,
}

impl View for RelayAction {
    type V = ActionSpec;

    open spec fn view(&self) -> ActionSpec {
        match self {
            RelayAction::EnterRawMode => ActionSpec::EnterRawMode,
            RelayAction::StartPumping => ActionSpec::StartPumping,
            RelayAction::Forward { bytes, read_limit } => ActionSpec::Forward {
                bytes: bytes@,
                read_limit: *read_limit,
            },
            RelayAction::Deliver { bytes, pause_ms } => ActionSpec::Deliver {
                bytes: bytes@,
                pause_ms: *pause_ms,
            },
            RelayAction::DeliverAndClose { bytes } => ActionSpec::DeliverAndClose {
                bytes: bytes@,
            },
            RelayAction::LeaveRawMode => ActionSpec::LeaveRawMode,
            RelayAction::Abort => ActionSpec::Abort,
            RelayAction::GiveUp => ActionSpec::GiveUp,
            RelayAction::Ignore => ActionSpec::Ignore,
        }
    }
}

/// The bytes that a read brought: those of `Data`, and none otherwise.
pub open spec fn bytes_read(outcome: ReadSpec) -> Seq<u8> {
    match outcome {
        ReadSpec::Data(bytes) => bytes,
        _ => Seq::empty(),
    }
}

/// The relay after an event, and what to do next.
pub open spec fn relay_step(state: RelayState, event: EventSpec) -> (RelayState, ActionSpec) {
    match (state, event) {
        (RelayState::Idle, EventSpec::Opened) => (RelayState::RawMode, ActionSpec::EnterRawMode),
        (RelayState::RawMode, EventSpec::RawModeEntered) => (
            RelayState::Relaying,
            ActionSpec::StartPumping,
        ),
        (RelayState::RawMode, EventSpec::RawModeRefused) => (RelayState::Idle, ActionSpec::GiveUp),
        (RelayState::Relaying, EventSpec::LocalInput(bytes)) => (
            RelayState::Relaying,
            ActionSpec::Forward { bytes, read_limit: READ_BUFFER },
        ),
        (RelayState::Relaying, EventSpec::RemoteRead { outcome, eof }) => match outcome {
            ReadSpec::Failed => (RelayState::Idle, ActionSpec::Abort),
            _ => if eof {
                (RelayState::Closing, ActionSpec::DeliverAndClose { bytes: bytes_read(outcome) })
            } else {
                (
                    RelayState::Relaying,
                    ActionSpec::Deliver { bytes: bytes_read(outcome), pause_ms: POLL_PAUSE_MS },
                )
            },
        },
        (RelayState::Closing, EventSpec::Closed) => (RelayState::Idle, ActionSpec::LeaveRawMode),
        _ => (state, ActionSpec::Ignore),
    }
}

/// The relay of one session.
#[derive(Debug)]
pub struct Relay {
    pub state: RelayState,
}

impl Relay {
    /// A relay with no session.
    pub fn new() -> (relay: Relay)
        ensures
            relay.state == RelayState::Idle,
    {
        Relay { state: RelayState::Idle }
    }

    /// Whether the terminal is, or is about to be, in raw mode: it then has
    /// to be put back before the relay is dropped.
    pub fn holds_raw_mode(&self) -> (held: bool)
        ensures
            held == (self.state != RelayState::Idle),
    {
        match self.state {
            RelayState::Idle => false,
            _ => true,
        }
    }

    /// Takes an event and says what to do next. Bytes pass through
    /// unchanged: what local input brought is forwarded, what the channel
    /// gave is delivered.
    pub fn step(&mut self, event: RelayEvent) -> (action: RelayAction)
        ensures
            (final(self).state, action@) == relay_step(old(self).state, event@),
    {
        match (self.state, event) {
            (RelayState::Idle, RelayEvent::Opened) => {
                self.state = RelayState::RawMode;
                RelayAction::EnterRawMode
            },
            (RelayState::RawMode, RelayEvent::RawModeEntered) => {
                self.state = RelayState::Relaying;
                RelayAction::StartPumping
            },
            (RelayState::RawMode, RelayEvent::RawModeRefused) => {
                self.state = RelayState::Idle;
                RelayAction::GiveUp
            },
            (RelayState::Relaying, RelayEvent::LocalInput(bytes)) => {
                RelayAction::Forward { bytes, read_limit: READ_BUFFER }
            },
            (RelayState::Relaying, RelayEvent::RemoteRead { outcome, eof }) => {
                let bytes = match outcome {
                    ReadOutcome::Failed => {
                        self.state = RelayState::Idle;
                        return RelayAction::Abort;
                    },
                    ReadOutcome::Data(bytes) => bytes,
                    ReadOutcome::WouldBlock => Vec::new(),
                };
                if eof {
                    self.state = RelayState::Closing;
                    RelayAction::DeliverAndClose { bytes }
                } else {
                    RelayAction::Deliver { bytes, pause_ms: POLL_PAUSE_MS }
                }
            },
            (RelayState::Closing, RelayEvent::Closed) => {
                self.state = RelayState::Idle;
                RelayAction::LeaveRawMode
            },
            _ => RelayAction::Ignore,
        }
    }
}

/// The relay after a sequence of events, and what it asked for after each.
pub open spec fn relay_run(state: RelayState, events: Seq<EventSpec>) -> (
    RelayState,
    Seq<ActionSpec>,
)
    decreases events.len(),
{
    if events.len() == 0 {
        (state, Seq::empty())
    } else {
        let first = relay_step(state, events[0]);
        let rest = relay_run(first.0, events.drop_first());
        (rest.0, seq![first.1] + rest.1)
    }
}

/// The bytes that an event brings from local input.
pub open spec fn input_of(event: EventSpec) -> Seq<u8> {
    match event {
        EventSpec::LocalInput(bytes) => bytes,
        _ => Seq::empty(),
    }
}

/// The bytes that an event brings from the remote channel.
pub open spec fn output_of(event: EventSpec) -> Seq<u8> {
    match event {
        EventSpec::RemoteRead { outcome, eof } => bytes_read(outcome),
        _ => Seq::empty(),
    }
}

/// The bytes that an action writes to the remote channel.
pub open spec fn forwarded_by(action: ActionSpec) -> Seq<u8> {
    match action {
        ActionSpec::Forward { bytes, read_limit } => bytes,
        _ => Seq::empty(),
    }
}

/// The bytes that an action writes to local output.
pub open spec fn delivered_by(action: ActionSpec) -> Seq<u8> {
    match action {
        ActionSpec::Deliver { bytes, pause_ms } => bytes,
        ActionSpec::DeliverAndClose { bytes } => bytes,
        _ => Seq::empty(),
    }
}

/// All bytes that local input fed, in order.
pub open spec fn local_input(events: Seq<EventSpec>) -> Seq<u8>
    decreases events.len(),
{
    if events.len() == 0 {
        Seq::empty()
    } else {
        input_of(events[0]) + local_input(events.drop_first())
    }
}

/// All bytes that the remote channel gave, in order.
pub open spec fn remote_output(events: Seq<EventSpec>) -> Seq<u8>
    decreases events.len(),
{
    if events.len() == 0 {
        Seq::empty()
    } else {
        output_of(events[0]) + remote_output(events.drop_first())
    }
}

/// All bytes written to the remote channel, in order.
pub open spec fn forwarded(actions: Seq<ActionSpec>) -> Seq<u8>
    decreases actions.len(),
{
    if actions.len() == 0 {
        Seq::empty()
    } else {
        forwarded_by(actions[0]) + forwarded(actions.drop_first())
    }
}

/// All bytes written to local output, in order.
pub open spec fn delivered(actions: Seq<ActionSpec>) -> Seq<u8>
    decreases actions.len(),
{
    if actions.len() == 0 {
        Seq::empty()
    } else {
        delivered_by(actions[0]) + delivered(actions.drop_first())
    }
}

/// The events are those of a session that pumps until the channel's end:
/// local input and reads that did not fail, with the end of the channel seen
/// by the last event at the earliest.
pub open spec fn pumps_to_the_end(events: Seq<EventSpec>) -> bool {
    forall|i: int|
        0 <= i < events.len() ==> match #[trigger] events[i] {
            EventSpec::LocalInput(bytes) => true,
            EventSpec::RemoteRead { outcome, eof } => outcome != ReadSpec::Failed && (eof ==> i
                == events.len() - 1),
            _ => false,
        }
}

/// While it pumps, the relay passes bytes on unchanged in both directions:
/// what it writes to the channel is what local input fed, and what it
/// writes to local output is what the channel gave, byte for byte and in
/// order.
pub proof fn lemma_relay_is_transparent(events: Seq<EventSpec>)
    requires
        pumps_to_the_end(events),
    ensures
        forwarded(relay_run(RelayState::Relaying, events).1) == local_input(events),
        delivered(relay_run(RelayState::Relaying, events).1) == remote_output(events),
    decreases events.len(),
{
    if events.len() > 0 {
        let first = relay_step(RelayState::Relaying, events[0]);
        let tail = events.drop_first();
        let rest = relay_run(first.0, tail);
        let actions = seq![first.1] + rest.1;
        assert(actions[0] == first.1);
        assert(actions.drop_first() =~= rest.1);
        assert(forwarded_by(first.1) == input_of(events[0]));
        assert(delivered_by(first.1) == output_of(events[0]));
        assert(relay_run(RelayState::Relaying, events).1 == actions);
        assert(forwarded(actions) == forwarded_by(first.1) + forwarded(rest.1));
        assert(delivered(actions) == delivered_by(first.1) + delivered(rest.1));
        if tail.len() == 0 {
            assert(rest.1 =~= Seq::<ActionSpec>::empty());
            assert(forwarded(rest.1) =~= Seq::<u8>::empty());
            assert(delivered(rest.1) =~= Seq::<u8>::empty());
            assert(local_input(tail) =~= Seq::<u8>::empty());
            assert(remote_output(tail) =~= Seq::<u8>::empty());
            assert(forwarded(actions) =~= local_input(events));
            assert(delivered(actions) =~= remote_output(events));
        } else {
            assert(first.0 == RelayState::Relaying);
            assert forall|i: int| 0 <= i < tail.len() implies match #[trigger] tail[i] {
                EventSpec::LocalInput(bytes) => true,
                EventSpec::RemoteRead { outcome, eof } => outcome != ReadSpec::Failed && (eof
                    ==> i == tail.len() - 1),
                _ => false,
            } by {
                assert(tail[i] == events[i + 1]);
            }
            lemma_relay_is_transparent(tail);
        }
    }
}

/// Against a channel that echoes, the relay is exact: if the reads gave
/// back just the bytes that were written to the channel, in order, then
/// local output received just the bytes that local input fed, as many and
/// in the same order.
pub proof fn lemma_echo_is_exact(events: Seq<EventSpec>)
    requires
        pumps_to_the_end(events),
        remote_output(events) == forwarded(relay_run(RelayState::Relaying, events).1),
    ensures
        delivered(relay_run(RelayState::Relaying, events).1) == local_input(events),
        delivered(relay_run(RelayState::Relaying, events).1).len() == local_input(events).len(),
{
    lemma_relay_is_transparent(events);
}


/// Every way out of a session puts the terminal back: whenever a step takes
/// the relay from another state to `Idle`, what it asks for is to leave raw
/// mode, or to give up because raw mode was never entered.
pub proof fn lemma_raw_mode_is_released(state: RelayState, event: EventSpec)
    requires
        state != RelayState::Idle,
        relay_step(state, event).0 == RelayState::Idle,
    ensures
        state == RelayState::RawMode ==> relay_step(state, event).1 == ActionSpec::GiveUp,
        state == RelayState::Relaying ==> relay_step(state, event).1 == ActionSpec::Abort,
        state == RelayState::Closing ==> relay_step(state, event).1 == ActionSpec::LeaveRawMode,
{
}

/// The relay leaves off pumping only for the end of the channel or a read
/// that failed: local input, and a read that blocks or brings bytes short
/// of the end, keep it pumping.
pub proof fn lemma_pumping_ends_on_eof_or_failure(event: EventSpec)
    ensures
        relay_step(RelayState::Relaying, event).0 != RelayState::Relaying ==> (event matches EventSpec::RemoteRead {
            outcome,
            eof,
        } && (eof || outcome == ReadSpec::Failed)),
{
}


} // verus!

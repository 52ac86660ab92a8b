//! The client's reconnect machine: dial, read frames with a timeout, back off, retry.
//!
//! The machine only decides. Its driver asks it for the next [`Command`],
//! performs it, reports what happened as an [`Event`] and carries out the
//! [`Reaction`] it gets back.

use vstd::prelude::*;
use crate::trigger::PING_BYTE;

verus! {

/// Seconds to wait before dialling again after a failed dial, a timeout or a
/// disconnect. The interval is constant: it never grows and has no jitter.
pub const BACKOFF_SECS: u64 = 5;

/// Seconds without a frame after which the connection is presumed dead.
pub const FRAME_TIMEOUT_SECS: u64 = 20;

/// Where the client stands with respect to the host.
#[derive(Clone, Copy, Debug, PartialEq, Eq, Structural)]
pub enum ClientState {
    /// No connection and no dial under way.
    Disconnected,
    /// Dialling the host, for the first time or again.
    Connecting,
    /// Connected and reading frames.
    Connected,
}

/// What the driver must do next.
#[derive(Clone, Copy, Debug, PartialEq, Eq, Structural)]
pub enum Command {
    /// Dial the host endpoint.
    Dial,
    /// Wait for the next frame, for at most this many seconds.
    AwaitFrame { timeout_secs: u64 },
}

/// What the driver observed.
#[derive(Clone, Copy, Debug, PartialEq, Eq, Structural)]
pub enum Event {
    /// The dial succeeded.
    DialSucceeded,
    /// The dial failed.
    DialFailed,
    /// A binary frame arrived; this is the first byte of its payload.
    Payload(u8),
    /// A frame arrived that carries no trigger: it is not binary, could not be
    /// read, or has an empty payload.
    OtherFrame,
    /// The stream ended cleanly.
    StreamEnded,
    /// No frame arrived within the timeout.
    TimedOut,
    /// The playback requested by [`Reaction::Play`] could not be carried out.
    PlaybackFailed,
}

/// What the driver must do about an event before it asks for the next command.
#[derive(Clone, Copy, Debug, PartialEq, Eq, Structural)]
pub enum Reaction {
    /// Nothing.
    Nothing,
    /// Play the notification sound at this volume.
    Play { volume: u16 },
    /// Note that a heartbeat arrived; no other action.
    Heartbeat,
    /// Sleep this many seconds.
    Backoff { secs: u64 },
    /// Give up: leave the loop and report the playback failure.
    Stop,
}

/// The event that a binary frame with this payload stands for: its first
/// byte, or a frame without a trigger where the payload is empty.
pub open spec fn spec_frame_event(payload: Seq<u8>) -> Event {
    if payload.len() == 0 {
        Event::OtherFrame
    } else {
        Event::Payload(payload[0])
    }
}

/// What the driver must do in `state`.
pub open spec fn command_in(state: ClientState) -> Command {
    match state {
        ClientState::Disconnected => Command::Dial,
        ClientState::Connecting => Command::Dial,
        ClientState::Connected => Command::AwaitFrame { timeout_secs: 20 },
    }
}

/// The state in which the command issued in `state` is carried out: a
/// disconnected client starts connecting at once.
pub open spec fn state_on_command(state: ClientState) -> ClientState {
    match state {
        ClientState::Disconnected => ClientState::Connecting,
        ClientState::Connecting => ClientState::Connecting,
        ClientState::Connected => ClientState::Connected,
    }
}

/// The state that follows `state` on `event`. An event that does not belong
/// to the command of `state` changes nothing.
pub open spec fn next_state(state: ClientState, event: Event) -> ClientState {
    match (state, event) {
        (ClientState::Connecting, Event::DialSucceeded) => ClientState::Connected,
        (ClientState::Connected, Event::StreamEnded) => ClientState::Disconnected,
        (ClientState::Connected, Event::TimedOut) => ClientState::Disconnected,
        (ClientState::Connected, Event::PlaybackFailed) => ClientState::Disconnected,
        _ => state,
    }
}

/// What the driver must do about `event` in `state`, for a client configured
/// with `volume`.
pub open spec fn reaction_to(state: ClientState, event: Event, volume: u16) -> Reaction {
    match (state, event) {
        (ClientState::Connecting, Event::DialFailed) => Reaction::Backoff { secs: 5 },
        (ClientState::Connected, Event::Payload(byte)) => if byte == 0xFFu8 {
            Reaction::Play { volume }
        } else {
            Reaction::Heartbeat
        },
        (ClientState::Connected, Event::StreamEnded) => Reaction::Backoff { secs: 5 },
        (ClientState::Connected, Event::TimedOut) => Reaction::Backoff { secs: 5 },
        (ClientState::Connected, Event::PlaybackFailed) => Reaction::Stop,
        _ => Reaction::Nothing,
    }
}

/// The state reached from `state` when the driver, for each of `events` in
/// turn, takes the command and then reports the event.
pub open spec fn state_after(state: ClientState, events: Seq<Event>) -> ClientState
    decreases events.len(),
{
    if events.len() == 0 {
        state
    } else {
        next_state(state_on_command(state_after(state, events.drop_last())), events.last())
    }
}

/// The reaction to the last of `events`, when the driver starts in `state`
/// and, for each event in turn, takes the command and then reports the event.
pub open spec fn last_reaction(state: ClientState, events: Seq<Event>, volume: u16) -> Reaction
    recommends
        events.len() >= 1,
{
    reaction_to(state_on_command(state_after(state, events.drop_last())), events.last(), volume)
}

/// Turns the payload of a binary frame into the event to report.
pub fn frame_event(payload: &[u8]) -> (event: Event)
    ensures
        event == spec_frame_event(payload@),
{
    if payload.len() == 0 {
        Event::OtherFrame
    } else {
        Event::Payload(payload[0])
    }
}

/// The reconnect machine of one client.
#[derive(Debug)]
pub struct Client {
    state: ClientState,
    volume: u16,
}

impl Client {
    /// The machine's current state.
    pub closed spec fn spec_state(self) -> ClientState {
        self.state
    }

    /// The playback volume the client was configured with.
    pub closed spec fn spec_volume(self) -> u16 {
        self.volume
    }

    /// A disconnected client that plays at `volume`.
    pub fn new(volume: u16) -> (client: Self)
        ensures
            client.spec_state() == ClientState::Disconnected,
            client.spec_volume() == volume,
    {
        Client { state: ClientState::Disconnected, volume }
    }

    /// The machine's current state.
    pub fn state(&self) -> (state: ClientState)
        ensures
            state == self.spec_state(),
    {
        self.state
    }

    /// The playback volume the client was configured with.
    pub fn volume(&self) -> (volume: u16)
        ensures
            volume == self.spec_volume(),
    {
        self.volume
    }

    /// Says what the driver must do next. A disconnected client starts
    /// connecting at once.
    pub fn next_command(&mut self) -> (command: Command)
        ensures
            command == command_in(old(self).spec_state()),
            final(self).spec_state() == state_on_command(old(self).spec_state()),
            final(self).spec_volume() == old(self).spec_volume(),
    {
        match self.state {
            ClientState::Disconnected => {
                self.state = ClientState::Connecting;
                Command::Dial
            },
            ClientState::Connecting => Command::Dial,
            ClientState::Connected => Command::AwaitFrame { timeout_secs: FRAME_TIMEOUT_SECS },
        }
    }

    /// Takes in what the driver observed and says what to do about it.
    pub fn handle(&mut self, event: Event) -> (reaction: Reaction)
        ensures
            final(self).spec_state() == next_state(old(self).spec_state(), event),
            reaction == reaction_to(old(self).spec_state(), event, old(self).spec_volume()),
            final(self).spec_volume() == old(self).spec_volume(),
    {
        match self.state {
            ClientState::Disconnected => Reaction::Nothing,
            ClientState::Connecting => match event {
                Event::DialSucceeded => {
                    self.state = ClientState::Connected;
                    Reaction::Nothing
                },
                Event::DialFailed => Reaction::Backoff { secs: BACKOFF_SECS },
                _ => Reaction::Nothing,
            },
            ClientState::Connected => match event {
                Event::Payload(byte) => if byte == PING_BYTE {
                    Reaction::Play { volume: self.volume }
                } else {
                    Reaction::Heartbeat
                },
                Event::StreamEnded | Event::TimedOut => {
                    self.state = ClientState::Disconnected;
                    Reaction::Backoff { secs: BACKOFF_SECS }
                },
                Event::PlaybackFailed => {
                    self.state = ClientState::Disconnected;
                    Reaction::Stop
                },
                _ => Reaction::Nothing,
            },
        }
    }
}

/// A connected client waits at most twenty seconds for a frame; when none
/// comes, or the stream ends, it backs off for exactly five seconds, is
/// disconnected, and its next command is to dial again.
pub proof fn lemma_silence_leads_to_redial(event: Event, volume: u16)
    requires
        event == Event::TimedOut || event == Event::StreamEnded,
    ensures
        command_in(ClientState::Connected) == (Command::AwaitFrame { timeout_secs: 20 }),
        next_state(ClientState::Connected, event) == ClientState::Disconnected,
        reaction_to(ClientState::Connected, event, volume) == (Reaction::Backoff { secs: 5 }),
        command_in(ClientState::Disconnected) == Command::Dial,
        state_on_command(ClientState::Disconnected) == ClientState::Connecting,
{
}

/// However many dials fail in a row, the client keeps dialling: after each
/// failure it backs off for exactly five seconds, stays connecting, and its
/// next command is to dial. The first dial that succeeds connects it.
pub proof fn lemma_dial_retried_until_success(start: ClientState, events: Seq<Event>, volume: u16)
    requires
        start == ClientState::Disconnected || start == ClientState::Connecting,
        events.len() >= 1,
        forall|i: int| 0 <= i < events.len() ==> events[i] == Event::DialFailed,
    ensures
        state_after(start, events) == ClientState::Connecting,
        last_reaction(start, events, volume) == (Reaction::Backoff { secs: 5 }),
        command_in(state_after(start, events)) == Command::Dial,
        state_after(start, events.push(Event::DialSucceeded)) == ClientState::Connected,
    decreases events.len(),
{
    let before = events.drop_last();
    if before.len() >= 1 {
        lemma_dial_retried_until_success(start, before, volume);
    } else {
        assert(state_after(start, before) == start);
    }
    assert(events.push(Event::DialSucceeded).drop_last() =~= events);
}

} // verus!

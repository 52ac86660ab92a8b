use clickr::client::{
    frame_event, Client, ClientState, Command, Event, Reaction, BACKOFF_SECS, FRAME_TIMEOUT_SECS,
};

fn connected(volume: u16) -> Client {
    let mut client = Client::new(volume);
    assert_eq!(client.next_command(), Command::Dial);
    assert_eq!(client.handle(Event::DialSucceeded), Reaction::Nothing);
    assert_eq!(client.state(), ClientState::Connected);
    client
}

#[test]
fn intervals_are_five_and_twenty_seconds() {
    assert_eq!(BACKOFF_SECS, 5);
    assert_eq!(FRAME_TIMEOUT_SECS, 20);
}

#[test]
fn new_client_is_disconnected() {
    let client = Client::new(2);
    assert_eq!(client.state(), ClientState::Disconnected);
    assert_eq!(client.volume(), 2);
}

#[test]
fn disconnected_client_dials_at_once() {
    let mut client = Client::new(2);
    assert_eq!(client.next_command(), Command::Dial);
    assert_eq!(client.state(), ClientState::Connecting);
}

#[test]
fn successful_dial_connects() {
    let mut client = Client::new(2);
    let _ = client.next_command();
    assert_eq!(client.handle(Event::DialSucceeded), Reaction::Nothing);
    assert_eq!(client.state(), ClientState::Connected);
    assert_eq!(client.next_command(), Command::AwaitFrame { timeout_secs: 20 });
    assert_eq!(client.state(), ClientState::Connected);
}

#[test]
fn failed_dials_are_retried_with_constant_backoff() {
    let mut client = Client::new(2);
    for _ in 0..1000 {
        assert_eq!(client.next_command(), Command::Dial);
        assert_eq!(client.handle(Event::DialFailed), Reaction::Backoff { secs: 5 });
        assert_eq!(client.state(), ClientState::Connecting);
    }
    assert_eq!(client.next_command(), Command::Dial);
    assert_eq!(client.handle(Event::DialSucceeded), Reaction::Nothing);
    assert_eq!(client.state(), ClientState::Connected);
}

#[test]
fn ping_frame_plays_at_the_configured_volume() {
    let mut client = connected(7);
    assert_eq!(client.handle(Event::Payload(0xFF)), Reaction::Play { volume: 7 });
    assert_eq!(client.state(), ClientState::Connected);
    assert_eq!(client.volume(), 7);
}

#[test]
fn heartbeat_frame_is_only_noted() {
    let mut client = connected(7);
    assert_eq!(client.handle(Event::Payload(0x00)), Reaction::Heartbeat);
    assert_eq!(client.state(), ClientState::Connected);
}

#[test]
fn any_byte_but_the_ping_byte_is_noted_like_a_heartbeat() {
    let mut client = connected(7);
    for byte in 0u8..=0xFE {
        assert_eq!(client.handle(Event::Payload(byte)), Reaction::Heartbeat);
        assert_eq!(client.state(), ClientState::Connected);
    }
}

#[test]
fn frame_without_trigger_changes_nothing() {
    let mut client = connected(7);
    assert_eq!(client.handle(Event::OtherFrame), Reaction::Nothing);
    assert_eq!(client.state(), ClientState::Connected);
}

#[test]
fn silence_for_the_timeout_disconnects_and_redials_after_backoff() {
    let mut client = connected(2);
    assert_eq!(client.next_command(), Command::AwaitFrame { timeout_secs: 20 });
    assert_eq!(client.handle(Event::TimedOut), Reaction::Backoff { secs: 5 });
    assert_eq!(client.state(), ClientState::Disconnected);
    assert_eq!(client.next_command(), Command::Dial);
    assert_eq!(client.state(), ClientState::Connecting);
    for _ in 0..3 {
        assert_eq!(client.handle(Event::DialFailed), Reaction::Backoff { secs: 5 });
        assert_eq!(client.next_command(), Command::Dial);
    }
    assert_eq!(client.handle(Event::DialSucceeded), Reaction::Nothing);
    assert_eq!(client.state(), ClientState::Connected);
}

#[test]
fn clean_stream_end_disconnects_and_backs_off() {
    let mut client = connected(2);
    assert_eq!(client.handle(Event::StreamEnded), Reaction::Backoff { secs: 5 });
    assert_eq!(client.state(), ClientState::Disconnected);
    assert_eq!(client.next_command(), Command::Dial);
}

#[test]
fn failed_playback_stops_the_loop() {
    let mut client = connected(2);
    assert_eq!(client.handle(Event::Payload(0xFF)), Reaction::Play { volume: 2 });
    assert_eq!(client.handle(Event::PlaybackFailed), Reaction::Stop);
    assert_eq!(client.state(), ClientState::Disconnected);
}

#[test]
fn events_that_belong_to_another_state_are_ignored() {
    let mut client = Client::new(2);
    for event in [
        Event::DialSucceeded,
        Event::DialFailed,
        Event::Payload(0xFF),
        Event::OtherFrame,
        Event::StreamEnded,
        Event::TimedOut,
        Event::PlaybackFailed,
    ] {
        assert_eq!(client.handle(event), Reaction::Nothing);
        assert_eq!(client.state(), ClientState::Disconnected);
    }

    let _ = client.next_command();
    for event in [
        Event::Payload(0xFF),
        Event::OtherFrame,
        Event::StreamEnded,
        Event::TimedOut,
        Event::PlaybackFailed,
    ] {
        assert_eq!(client.handle(event), Reaction::Nothing);
        assert_eq!(client.state(), ClientState::Connecting);
    }

    let mut client = connected(2);
    for event in [Event::DialSucceeded, Event::DialFailed] {
        assert_eq!(client.handle(event), Reaction::Nothing);
        assert_eq!(client.state(), ClientState::Connected);
    }
}

#[test]
fn frame_payload_is_reported_by_its_first_byte() {
    assert_eq!(frame_event(&[0xFF]), Event::Payload(0xFF));
    assert_eq!(frame_event(&[0x00]), Event::Payload(0x00));
    assert_eq!(frame_event(&[0x2A, 0xFF]), Event::Payload(0x2A));
}

#[test]
fn empty_frame_payload_carries_no_trigger() {
    assert_eq!(frame_event(&[]), Event::OtherFrame);
}

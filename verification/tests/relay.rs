use ssh_manager::relay::{
    ReadOutcome, Relay, RelayAction, RelayEvent, RelayState, POLL_PAUSE_MS, READ_BUFFER,
};

fn pumping() -> Relay {
    let mut relay = Relay::new();
    assert!(matches!(relay.step(RelayEvent::Opened), RelayAction::EnterRawMode));
    assert!(matches!(relay.step(RelayEvent::RawModeEntered), RelayAction::StartPumping));
    relay
}

#[test]
fn relay_constants() {
    assert_eq!(READ_BUFFER, 2048);
    assert_eq!(POLL_PAUSE_MS, 5);
}

#[test]
fn session_walks_through_the_four_states() {
    let mut relay = Relay::new();
    assert_eq!(relay.state, RelayState::Idle);
    assert!(!relay.holds_raw_mode());
    assert!(matches!(relay.step(RelayEvent::Opened), RelayAction::EnterRawMode));
    assert_eq!(relay.state, RelayState::RawMode);
    assert!(relay.holds_raw_mode());
    assert!(matches!(relay.step(RelayEvent::RawModeEntered), RelayAction::StartPumping));
    assert_eq!(relay.state, RelayState::Relaying);
    let action = relay.step(RelayEvent::RemoteRead {
        outcome: ReadOutcome::Data(Vec::new()),
        eof: true,
    });
    assert!(matches!(action, RelayAction::DeliverAndClose { bytes } if bytes.is_empty()));
    assert_eq!(relay.state, RelayState::Closing);
    assert!(relay.holds_raw_mode());
    assert!(matches!(relay.step(RelayEvent::Closed), RelayAction::LeaveRawMode));
    assert_eq!(relay.state, RelayState::Idle);
    assert!(!relay.holds_raw_mode());
}

#[test]
fn refused_raw_mode_ends_the_session_before_it_begins() {
    let mut relay = Relay::new();
    relay.step(RelayEvent::Opened);
    assert!(matches!(relay.step(RelayEvent::RawModeRefused), RelayAction::GiveUp));
    assert_eq!(relay.state, RelayState::Idle);
}

#[test]
fn local_input_is_forwarded_unchanged() {
    let mut relay = pumping();
    let action = relay.step(RelayEvent::LocalInput(vec![b'l', b's', 0, 255, b'\r']));
    match action {
        RelayAction::Forward { bytes, read_limit } => {
            assert_eq!(bytes, vec![b'l', b's', 0, 255, b'\r']);
            assert_eq!(read_limit, 2048);
        }
        _ => panic!("a forward was expected"),
    }
    assert_eq!(relay.state, RelayState::Relaying);
    let action = relay.step(RelayEvent::LocalInput(Vec::new()));
    assert!(matches!(action, RelayAction::Forward { bytes, .. } if bytes.is_empty()));
}

#[test]
fn remote_bytes_are_delivered_unchanged_and_the_relay_rests() {
    let mut relay = pumping();
    let action = relay.step(RelayEvent::RemoteRead {
        outcome: ReadOutcome::Data(vec![27, b'[', b'0', b'm']),
        eof: false,
    });
    match action {
        RelayAction::Deliver { bytes, pause_ms } => {
            assert_eq!(bytes, vec![27, b'[', b'0', b'm']);
            assert_eq!(pause_ms, 5);
        }
        _ => panic!("a delivery was expected"),
    }
    assert_eq!(relay.state, RelayState::Relaying);
}

#[test]
fn would_block_is_no_error() {
    let mut relay = pumping();
    let action = relay.step(RelayEvent::RemoteRead { outcome: ReadOutcome::WouldBlock, eof: false });
    assert!(matches!(action, RelayAction::Deliver { bytes, pause_ms: 5 } if bytes.is_empty()));
    assert_eq!(relay.state, RelayState::Relaying);
    let action = relay.step(RelayEvent::RemoteRead { outcome: ReadOutcome::WouldBlock, eof: true });
    assert!(matches!(action, RelayAction::DeliverAndClose { bytes } if bytes.is_empty()));
    assert_eq!(relay.state, RelayState::Closing);
}

#[test]
fn empty_read_without_end_goes_on() {
    let mut relay = pumping();
    let action = relay.step(RelayEvent::RemoteRead {
        outcome: ReadOutcome::Data(Vec::new()),
        eof: false,
    });
    assert!(matches!(action, RelayAction::Deliver { bytes, .. } if bytes.is_empty()));
    assert_eq!(relay.state, RelayState::Relaying);
}

#[test]
fn last_bytes_are_delivered_before_closing() {
    let mut relay = pumping();
    let action = relay.step(RelayEvent::RemoteRead {
        outcome: ReadOutcome::Data(b"logout\r\n".to_vec()),
        eof: true,
    });
    assert!(matches!(action, RelayAction::DeliverAndClose { bytes } if bytes == b"logout\r\n"));
    assert_eq!(relay.state, RelayState::Closing);
}

#[test]
fn failed_read_leaves_raw_mode() {
    let mut relay = pumping();
    let action = relay.step(RelayEvent::RemoteRead { outcome: ReadOutcome::Failed, eof: false });
    assert!(matches!(action, RelayAction::Abort));
    assert_eq!(relay.state, RelayState::Idle);
    assert!(!relay.holds_raw_mode());
}

#[test]
fn events_that_do_not_belong_are_ignored() {
    let mut relay = Relay::new();
    assert!(matches!(relay.step(RelayEvent::LocalInput(vec![1])), RelayAction::Ignore));
    assert!(matches!(relay.step(RelayEvent::Closed), RelayAction::Ignore));
    assert_eq!(relay.state, RelayState::Idle);
    let mut relay = pumping();
    assert!(matches!(relay.step(RelayEvent::Opened), RelayAction::Ignore));
    assert!(matches!(relay.step(RelayEvent::Closed), RelayAction::Ignore));
    assert_eq!(relay.state, RelayState::Relaying);
    relay.step(RelayEvent::RemoteRead { outcome: ReadOutcome::WouldBlock, eof: true });
    assert!(matches!(relay.step(RelayEvent::LocalInput(vec![1])), RelayAction::Ignore));
    assert_eq!(relay.state, RelayState::Closing);
}

#[test]
fn echoing_channel_returns_every_byte_in_order() {
    // The channel hands back on the next read whatever was written to it, at
    // most seven bytes at a time.
    let typed: Vec<u8> = (0..=255u8).chain(0..=255u8).rev().collect();
    let mut relay = pumping();
    let mut in_channel: Vec<u8> = Vec::new();
    let mut shown: Vec<u8> = Vec::new();
    let mut fed = 0;
    let mut closed = false;
    while !closed {
        let batch = if fed < typed.len() { (fed % 5) + 1 } else { 0 };
        let upto = (fed + batch).min(typed.len());
        let input = typed[fed..upto].to_vec();
        fed = upto;
        match relay.step(RelayEvent::LocalInput(input)) {
            RelayAction::Forward { bytes, .. } => in_channel.extend(bytes),
            _ => panic!("a forward was expected"),
        }
        let take = in_channel.len().min(7);
        let read: Vec<u8> = in_channel.drain(..take).collect();
        let eof = fed == typed.len() && in_channel.is_empty();
        let outcome = if read.is_empty() && !eof {
            ReadOutcome::WouldBlock
        } else {
            ReadOutcome::Data(read)
        };
        match relay.step(RelayEvent::RemoteRead { outcome, eof }) {
            RelayAction::Deliver { bytes, .. } => shown.extend(bytes),
            RelayAction::DeliverAndClose { bytes } => {
                shown.extend(bytes);
                closed = true;
            }
            _ => panic!("a delivery was expected"),
        }
    }
    assert_eq!(shown.len(), 512);
    assert_eq!(shown, typed);
    assert!(matches!(relay.step(RelayEvent::Closed), RelayAction::LeaveRawMode));
}

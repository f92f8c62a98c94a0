use secure_websocket::error::NoiseError;
use secure_websocket::noise::{
    Frame, HandshakeFailure, InitiatorHandshake, NoiseSession, ResponderHandshake,
};
use secure_websocket::rekey::{RekeyTick, RekeyingSession};

const PSK: &[u8; 32] = b"my_super_secret_pre_shared_key!!";

fn transports(psk_i: &[u8; 32], psk_r: &[u8; 32]) -> Result<(snow::TransportState, snow::TransportState), HandshakeFailure> {
    let (mut initiator, first) = InitiatorHandshake::start(psk_i)?;
    let mut responder = ResponderHandshake::new(psk_r)?;
    let second = responder.respond(Some(Frame::Binary(first)))?;
    let third = initiator.answer(Some(Frame::Binary(second)))?;
    let server = responder.complete(Some(Frame::Binary(third)))?;
    let client = initiator.finish()?;
    Ok((client, server))
}

#[test]
fn handshake_then_messages_round_trip() {
    let (c, s) = transports(PSK, PSK).unwrap();
    let mut client = NoiseSession::new(c);
    let mut server = NoiseSession::new(s);
    let text = br#"{"sender":"Alice","content":"Hello everyone!"}"#;
    let sealed = client.encrypt(text).unwrap();
    assert_eq!(sealed.len(), text.len() + 16);
    assert_ne!(&sealed[..text.len()], &text[..]);
    let opened = server.decrypt(&sealed).unwrap();
    assert_eq!(opened, text.to_vec());
    let reply = server.encrypt(b"hi").unwrap();
    assert_eq!(client.decrypt(&reply).unwrap(), b"hi".to_vec());
}

#[test]
fn handshake_message_sizes() {
    let (mut initiator, first) = InitiatorHandshake::start(PSK).unwrap();
    assert_eq!(first.len(), 48);
    let mut responder = ResponderHandshake::new(PSK).unwrap();
    let second = responder.respond(Some(Frame::Binary(first))).unwrap();
    assert_eq!(second.len(), 96);
    let third = initiator.answer(Some(Frame::Binary(second))).unwrap();
    assert_eq!(third.len(), 64);
}

#[test]
fn different_psks_do_not_agree() {
    let other: [u8; 32] = [9u8; 32];
    match transports(PSK, &other) {
        Err(HandshakeFailure::Protocol(_)) => {}
        Err(f) => panic!("unexpected failure {:?}", f),
        Ok(_) => panic!("handshake with different keys succeeded"),
    }
}

#[test]
fn handshake_frames_must_be_binary() {
    let mut responder = ResponderHandshake::new(PSK).unwrap();
    assert_eq!(responder.respond(None).unwrap_err(), HandshakeFailure::ConnectionClosed);
    assert_eq!(
        responder.respond(Some(Frame::Text("hello".to_string()))).unwrap_err(),
        HandshakeFailure::UnexpectedFrame
    );
    assert_eq!(responder.respond(Some(Frame::Close)).unwrap_err(), HandshakeFailure::UnexpectedFrame);
    let (mut initiator, _) = InitiatorHandshake::start(PSK).unwrap();
    assert_eq!(initiator.answer(None).unwrap_err(), HandshakeFailure::ConnectionClosed);
    assert_eq!(initiator.answer(Some(Frame::Other)).unwrap_err(), HandshakeFailure::UnexpectedFrame);
}

#[test]
fn garbage_handshake_message_is_refused() {
    let mut responder = ResponderHandshake::new(PSK).unwrap();
    match responder.respond(Some(Frame::Binary(vec![1, 2, 3]))) {
        Err(HandshakeFailure::Protocol(_)) => {}
        other => panic!("unexpected {:?}", other.map(|v| v.len())),
    }
}

#[test]
fn tampered_and_short_messages_are_refused() {
    let (c, s) = transports(PSK, PSK).unwrap();
    let mut client = NoiseSession::new(c);
    let mut server = NoiseSession::new(s);
    let mut sealed = client.encrypt(b"secret").unwrap();
    sealed[0] ^= 1;
    assert!(matches!(server.decrypt(&sealed), Err(NoiseError::DecryptionError(_))));
    assert!(matches!(server.decrypt(&[0u8; 15]), Err(NoiseError::DecryptionError(_))));
}

#[test]
fn oversized_messages_are_refused() {
    let (c, _s) = transports(PSK, PSK).unwrap();
    let mut client = NoiseSession::new(c);
    let big = vec![0u8; 65535 - 16 + 1];
    assert!(matches!(client.encrypt(&big), Err(NoiseError::EncryptionError(_))));
    let fits = vec![0u8; 65535 - 16];
    assert_eq!(client.encrypt(&fits).unwrap().len(), 65535);
}

#[test]
fn rekeying_session_counts_and_schedules() {
    let (c, s) = transports(PSK, PSK).unwrap();
    let mut client = NoiseSession::new(c);
    let mut server = RekeyingSession::new(s, 1_000);
    assert_eq!(server.get_message_count(), 0);
    assert_eq!(server.get_rekey_count(), 0);
    let left = server.get_time_until_next_rekey(1_000);
    assert!((30_000..=120_000).contains(&left));
    assert!(!server.should_rekey(1_000));
    assert!(!server.should_rekey(30_999));
    assert!(server.should_rekey(121_000));
    assert_eq!(server.get_time_until_next_rekey(500_000), 0);

    let sealed = server.encrypt(b"ping").unwrap();
    assert_eq!(client.decrypt(&sealed).unwrap(), b"ping".to_vec());
    assert_eq!(server.get_message_count(), 1);
    let from_client = client.encrypt(b"pong").unwrap();
    assert_eq!(server.decrypt(&from_client).unwrap(), b"pong".to_vec());
    assert_eq!(server.get_message_count(), 2);
    assert!(server.decrypt(&[1u8; 3]).is_err());
    assert_eq!(server.get_message_count(), 2);

    server.perform_rekey(200_000);
    assert_eq!(server.get_rekey_count(), 1);
    assert_eq!(server.get_message_count(), 2);
    assert!(!server.should_rekey(229_999));
    assert!(server.should_rekey(320_000));
}

#[test]
fn fixed_interval_schedule_is_exact() {
    let (_c, s) = transports(PSK, PSK).unwrap();
    let mut server = RekeyingSession::with_interval(s, 5_000, 45);
    assert_eq!(server.get_time_until_next_rekey(5_000), 45_000);
    assert!(!server.should_rekey(49_999));
    assert!(server.should_rekey(50_000));
    server.rekey_with_interval(60_000, 30);
    assert_eq!(server.get_rekey_count(), 1);
    assert_eq!(server.get_time_until_next_rekey(60_000), 30_000);
}

#[test]
fn rekey_on_both_sides_keeps_the_channel() {
    let (c, s) = transports(PSK, PSK).unwrap();
    let mut client = RekeyingSession::with_interval(c, 0, 30);
    let mut server = RekeyingSession::with_interval(s, 0, 30);
    server.rekey_with_interval(1, 30);
    client.rekey_with_interval(1, 30);
    let sealed = server.encrypt(b"after rekey").unwrap();
    assert_eq!(client.decrypt(&sealed).unwrap(), b"after rekey".to_vec());
}

#[test]
fn rekey_tick_seals_the_command_under_the_old_key() {
    let (c, s) = transports(PSK, PSK).unwrap();
    let mut client = RekeyingSession::with_interval(c, 0, 30);
    let mut server = RekeyingSession::with_interval(s, 0, 30);
    let command = br#"{"type":"rekey"}"#;
    assert!(matches!(server.rekey_tick(29_999, command), RekeyTick::NotDue));
    assert_eq!(server.get_message_count(), 0);
    let sealed = match server.rekey_tick(30_000, command) {
        RekeyTick::Send(c) => c,
        other => panic!("expected a sealed command, got {:?}", other),
    };
    assert_eq!(sealed.len(), command.len() + 16);
    assert_eq!(server.get_message_count(), 1);
    assert_eq!(server.get_rekey_count(), 0);
    // The peer still holds the old keys, so it opens the command first.
    assert_eq!(client.decrypt(&sealed).unwrap(), command.to_vec());
    assert!(server.rekey_sent(30_000, true));
    client.perform_rekey(30_000);
    assert_eq!(server.get_rekey_count(), 1);
    assert!(!server.should_rekey(59_999));
    let after = server.encrypt(b"next").unwrap();
    assert_eq!(client.decrypt(&after).unwrap(), b"next".to_vec());
}

#[test]
fn rekey_tick_stops_on_an_unsealable_command() {
    let (_c, s) = transports(PSK, PSK).unwrap();
    let mut server = RekeyingSession::with_interval(s, 0, 30);
    let command = vec![0u8; 65_535 - 15];
    match server.rekey_tick(30_000, &command) {
        RekeyTick::Stop(NoiseError::EncryptionError(_)) => {}
        other => panic!("expected a stop, got {:?}", other),
    }
    assert_eq!(server.get_message_count(), 0);
    assert!(matches!(server.rekey_tick(30_000, b"ok"), RekeyTick::Send(_)));
}

#[test]
fn rotating_only_one_side_breaks_decryption() {
    let (c, s) = transports(PSK, PSK).unwrap();
    let mut client = NoiseSession::new(c);
    let mut server = RekeyingSession::with_interval(s, 0, 30);
    server.perform_rekey(1);
    let sealed = server.encrypt(b"rotated").unwrap();
    assert!(matches!(client.decrypt(&sealed), Err(NoiseError::DecryptionError(_))));
}

#[test]
fn failed_rekey_send_keeps_the_old_keys() {
    let (c, s) = transports(PSK, PSK).unwrap();
    let mut client = RekeyingSession::with_interval(c, 0, 30);
    let mut server = RekeyingSession::with_interval(s, 0, 30);
    assert!(matches!(server.rekey_tick(30_000, b"{\"type\":\"rekey\"}"), RekeyTick::Send(_)));
    assert!(!server.rekey_sent(30_000, false));
    assert_eq!(server.get_rekey_count(), 0);
    assert!(server.should_rekey(30_000));
    // The lost command used a nonce the client never saw, so the next
    // message is sealed at a nonce the client does not expect.
    let sealed = server.encrypt(b"still old keys").unwrap();
    assert!(client.decrypt(&sealed).is_err());
}

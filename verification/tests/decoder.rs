use kilo::input::{Decoder, KeyEvent, ESCAPE_BYTE, EXIT_CONTROL_BYTE};

/// Feeds a full byte sequence and returns the event it completes,
/// checking that no event is produced before the last byte: the decoder
/// consumes exactly the sequence.
fn decode_all(bytes: &[u8]) -> KeyEvent {
    let mut decoder = Decoder::new();
    for (i, b) in bytes.iter().enumerate() {
        match decoder.feed(Some(*b)) {
            Some(event) => {
                assert_eq!(i, bytes.len() - 1, "event completed early");
                return event;
            }
            None => assert!(i < bytes.len() - 1, "no event after the last byte"),
        }
    }
    unreachable!();
}

#[test]
fn arrow_sequences_consume_three_bytes() {
    assert_eq!(decode_all(b"\x1b[A"), KeyEvent::ArrowUp);
    assert_eq!(decode_all(b"\x1b[B"), KeyEvent::ArrowDown);
    assert_eq!(decode_all(b"\x1b[C"), KeyEvent::ArrowRight);
    assert_eq!(decode_all(b"\x1b[D"), KeyEvent::ArrowLeft);
}

#[test]
fn page_sequences_consume_four_bytes() {
    assert_eq!(decode_all(b"\x1b[5~"), KeyEvent::PageUp);
    assert_eq!(decode_all(b"\x1b[6~"), KeyEvent::PageDown);
}

#[test]
fn home_and_end_variants() {
    assert_eq!(decode_all(b"\x1b[H"), KeyEvent::Home);
    assert_eq!(decode_all(b"\x1b[F"), KeyEvent::End);
    assert_eq!(decode_all(b"\x1bOH"), KeyEvent::Home);
    assert_eq!(decode_all(b"\x1bOF"), KeyEvent::End);
    assert_eq!(decode_all(b"\x1b[1~"), KeyEvent::Home);
    assert_eq!(decode_all(b"\x1b[7~"), KeyEvent::Home);
    assert_eq!(decode_all(b"\x1b[4~"), KeyEvent::End);
    assert_eq!(decode_all(b"\x1b[8~"), KeyEvent::End);
}

#[test]
fn unused_tilde_digits_are_unrecognized() {
    assert_eq!(decode_all(b"\x1b[2~"), KeyEvent::Unrecognized);
    assert_eq!(decode_all(b"\x1b[3~"), KeyEvent::Unrecognized);
    assert_eq!(decode_all(b"\x1b[9~"), KeyEvent::Unrecognized);
    assert_eq!(decode_all(b"\x1b[0~"), KeyEvent::Unrecognized);
}

#[test]
fn lone_escape_then_timeout_is_unrecognized() {
    let mut decoder = Decoder::new();
    assert_eq!(decoder.feed(Some(ESCAPE_BYTE)), None);
    assert_eq!(decoder.feed(None), Some(KeyEvent::Unrecognized));
}

#[test]
fn truncated_sequences_degrade_on_timeout() {
    let mut decoder = Decoder::new();
    assert_eq!(decoder.feed(Some(ESCAPE_BYTE)), None);
    assert_eq!(decoder.feed(Some(b'[')), None);
    assert_eq!(decoder.feed(None), Some(KeyEvent::Unrecognized));

    let mut decoder = Decoder::new();
    assert_eq!(decoder.feed(Some(ESCAPE_BYTE)), None);
    assert_eq!(decoder.feed(Some(b'[')), None);
    assert_eq!(decoder.feed(Some(b'5')), None);
    assert_eq!(decoder.feed(None), Some(KeyEvent::Unrecognized));

    let mut decoder = Decoder::new();
    assert_eq!(decoder.feed(Some(ESCAPE_BYTE)), None);
    assert_eq!(decoder.feed(Some(b'O')), None);
    assert_eq!(decoder.feed(None), Some(KeyEvent::Unrecognized));
}

#[test]
fn unknown_sequences_are_unrecognized() {
    assert_eq!(decode_all(b"\x1bx"), KeyEvent::Unrecognized);
    assert_eq!(decode_all(b"\x1b[Z"), KeyEvent::Unrecognized);
    assert_eq!(decode_all(b"\x1b[5x"), KeyEvent::Unrecognized);
    assert_eq!(decode_all(b"\x1bOx"), KeyEvent::Unrecognized);
}

#[test]
fn printable_bytes_pass_through() {
    assert_eq!(decode_all(b"a"), KeyEvent::PrintableByte(b'a'));
    assert_eq!(decode_all(b"~"), KeyEvent::PrintableByte(b'~'));
    assert_eq!(decode_all(b"["), KeyEvent::PrintableByte(b'['));
    assert_eq!(decode_all(&[0x00]), KeyEvent::PrintableByte(0x00));
}

#[test]
fn exit_control_byte_exits_at_once() {
    assert_eq!(decode_all(&[EXIT_CONTROL_BYTE]), KeyEvent::ControlExit);
}

#[test]
fn timeout_at_start_is_no_key_this_tick() {
    let mut decoder = Decoder::new();
    assert_eq!(decoder.feed(None), None);
    assert_eq!(decoder.feed(None), None);
    assert_eq!(decoder.feed(Some(b'q')), Some(KeyEvent::PrintableByte(b'q')));
}

#[test]
fn decoder_recovers_after_each_event() {
    let mut decoder = Decoder::new();
    assert_eq!(decoder.feed(Some(ESCAPE_BYTE)), None);
    assert_eq!(decoder.feed(Some(b'[')), None);
    assert_eq!(decoder.feed(Some(b'A')), Some(KeyEvent::ArrowUp));
    assert_eq!(decoder.feed(Some(ESCAPE_BYTE)), None);
    assert_eq!(decoder.feed(Some(b'[')), None);
    assert_eq!(decoder.feed(Some(b'6')), None);
    assert_eq!(decoder.feed(Some(b'~')), Some(KeyEvent::PageDown));
    assert_eq!(decoder.feed(Some(b'z')), Some(KeyEvent::PrintableByte(b'z')));
}

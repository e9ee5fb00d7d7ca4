//! Input decoding: raw bytes to logical key events.
//!
//! The decoder is a finite state machine with at most four bytes of
//! lookahead.  It is fed one read outcome at a time: `Some(b)` for a byte
//! delivered by the terminal, `None` for a read that timed out with no
//! byte.  A lone escape byte whose continuation never arrives degrades to
//! [`KeyEvent::Unrecognized`] instead of blocking, so input latency is
//! bounded by a few read timeouts.

use vstd::prelude::*;

verus! {

/// The escape byte that opens a multi-byte sequence.
pub const ESCAPE_BYTE: u8 = 0x1b;

/// The control byte that requests a clean exit: control-Q, the byte the
/// terminal sends for that key once software flow control is disabled.
pub const EXIT_CONTROL_BYTE: u8 = 0x11;

/// A logical key event, produced once per decoded input sequence.
#[derive(Clone, Copy, PartialEq, Eq, Structural, Debug)]
pub enum KeyEvent {
    PrintableByte(u8),
    ControlExit,
    ArrowUp,
    ArrowDown,
    ArrowLeft,
    ArrowRight,
    Home,
    End,
    PageUp,
    PageDown,
    Unrecognized,
}

/// Position of the decoder inside an escape sequence.
#[derive(Clone, Copy, PartialEq, Eq, Structural, Debug)]
pub enum DecoderState {
    /// No sequence in progress.
    Start,
    /// An escape byte has been consumed.
    EscapeSeen,
    /// `ESC [` has been consumed.
    BracketSeen,
    /// `ESC [ d` has been consumed for the digit `d`.
    DigitSeen(u8),
    /// `ESC O` has been consumed.
    AlternateSeen,
}

/// The event a navigation sequence `ESC [ d ~` stands for.
pub open spec fn spec_tilde_event(digit: u8) -> KeyEvent {
    if digit == 0x31 || digit == 0x37 {
        KeyEvent::Home
    } else if digit == 0x34 || digit == 0x38 {
        KeyEvent::End
    } else if digit == 0x35 {
        KeyEvent::PageUp
    } else if digit == 0x36 {
        KeyEvent::PageDown
    } else {
        KeyEvent::Unrecognized
    }
}

/// One transition of the decoder: from a state and a read outcome to the
/// next state and the event completed by this byte, if any.
pub open spec fn spec_step(s: DecoderState, b: Option<u8>) -> (DecoderState, Option<
    KeyEvent,
>) {
    match s {
        DecoderState::Start => match b {
            // A timed-out read outside a sequence is "no key this tick".
            None => (DecoderState::Start, None),
            Some(c) => {
                if c == EXIT_CONTROL_BYTE {
                    (DecoderState::Start, Some(KeyEvent::ControlExit))
                } else if c == ESCAPE_BYTE {
                    (DecoderState::EscapeSeen, None)
                } else {
                    (DecoderState::Start, Some(KeyEvent::PrintableByte(c)))
                }
            },
        },
        DecoderState::EscapeSeen => match b {
            None => (DecoderState::Start, Some(KeyEvent::Unrecognized)),
            Some(c) => {
                if c == 0x5b {
                    (DecoderState::BracketSeen, None)
                } else if c == 0x4f {
                    (DecoderState::AlternateSeen, None)
                } else {
                    (DecoderState::Start, Some(KeyEvent::Unrecognized))
                }
            },
        },
        DecoderState::BracketSeen => match b {
            None => (DecoderState::Start, Some(KeyEvent::Unrecognized)),
            Some(c) => {
                if 0x30 <= c && c <= 0x39 {
                    (DecoderState::DigitSeen(c), None)
                } else if c == 0x41 {
                    (DecoderState::Start, Some(KeyEvent::ArrowUp))
                } else if c == 0x42 {
                    (DecoderState::Start, Some(KeyEvent::ArrowDown))
                } else if c == 0x43 {
                    (DecoderState::Start, Some(KeyEvent::ArrowRight))
                } else if c == 0x44 {
                    (DecoderState::Start, Some(KeyEvent::ArrowLeft))
                } else if c == 0x48 {
                    (DecoderState::Start, Some(KeyEvent::Home))
                } else if c == 0x46 {
                    (DecoderState::Start, Some(KeyEvent::End))
                } else {
                    (DecoderState::Start, Some(KeyEvent::Unrecognized))
                }
            },
        },
        DecoderState::DigitSeen(d) => match b {
            None => (DecoderState::Start, Some(KeyEvent::Unrecognized)),
            Some(c) => {
                if c == 0x7e {
                    (DecoderState::Start, Some(spec_tilde_event(d)))
                } else {
                    (DecoderState::Start, Some(KeyEvent::Unrecognized))
                }
            },
        },
        DecoderState::AlternateSeen => match b {
            None => (DecoderState::Start, Some(KeyEvent::Unrecognized)),
            Some(c) => {
                if c == 0x48 {
                    (DecoderState::Start, Some(KeyEvent::Home))
                } else if c == 0x46 {
                    (DecoderState::Start, Some(KeyEvent::End))
                } else {
                    (DecoderState::Start, Some(KeyEvent::Unrecognized))
                }
            },
        },
    }
}

/// Whenever a transition completes an event, the decoder is back at
/// `Start`: no sequence spans a completed event.
pub proof fn lemma_step_resets_on_event(s: DecoderState, b: Option<u8>)
    ensures
        spec_step(s, b).1 is Some ==> spec_step(s, b).0 == DecoderState::Start,
{
}

/// From `Start`, every fed byte either completes an event at once or
/// begins an escape sequence that completes, with an event, after at most
/// three further read outcomes: the decoder's lookahead is bounded.
pub proof fn lemma_bounded_lookahead(b1: u8, b2: Option<u8>, b3: Option<u8>, b4: Option<u8>)
    ensures
        ({
            let (s1, e1) = spec_step(DecoderState::Start, Some(b1));
            let (s2, e2) = spec_step(s1, b2);
            let (s3, e3) = spec_step(s2, b3);
            let (s4, e4) = spec_step(s3, b4);
            e1 is Some || e2 is Some || e3 is Some || e4 is Some
        }),
{
}

/// `ESC [` followed by `A`, `B`, `C` or `D` decodes to the matching
/// arrow event, completing on exactly the third byte: the first two
/// transitions yield no event.
pub proof fn lemma_arrow_sequences_take_three_bytes(b3: u8)
    requires
        b3 == 0x41 || b3 == 0x42 || b3 == 0x43 || b3 == 0x44,
    ensures
        ({
            let (s1, e1) = spec_step(DecoderState::Start, Some(ESCAPE_BYTE));
            let (s2, e2) = spec_step(s1, Some(0x5b));
            let (s3, e3) = spec_step(s2, Some(b3));
            &&& e1 is None
            &&& e2 is None
            &&& s3 == DecoderState::Start
            &&& e3 == Some(
                if b3 == 0x41 {
                    KeyEvent::ArrowUp
                } else if b3 == 0x42 {
                    KeyEvent::ArrowDown
                } else if b3 == 0x43 {
                    KeyEvent::ArrowRight
                } else {
                    KeyEvent::ArrowLeft
                },
            )
        }),
{
}

/// `ESC [ 5 ~` decodes to page-up and `ESC [ 6 ~` to page-down,
/// completing on exactly the fourth byte.
pub proof fn lemma_page_sequences_take_four_bytes(digit: u8)
    requires
        digit == 0x35 || digit == 0x36,
    ensures
        ({
            let (s1, e1) = spec_step(DecoderState::Start, Some(ESCAPE_BYTE));
            let (s2, e2) = spec_step(s1, Some(0x5b));
            let (s3, e3) = spec_step(s2, Some(digit));
            let (s4, e4) = spec_step(s3, Some(0x7e));
            &&& e1 is None
            &&& e2 is None
            &&& e3 is None
            &&& s4 == DecoderState::Start
            &&& e4 == Some(
                if digit == 0x35 {
                    KeyEvent::PageUp
                } else {
                    KeyEvent::PageDown
                },
            )
        }),
{
}

/// A lone escape byte whose next read times out yields an unrecognized
/// event at once, leaving the decoder ready for the next key: it never
/// waits for more than the one timed-out read.
pub proof fn lemma_lone_escape_degrades_on_timeout()
    ensures
        ({
            let (s1, e1) = spec_step(DecoderState::Start, Some(ESCAPE_BYTE));
            let (s2, e2) = spec_step(s1, None);
            &&& e1 is None
            &&& e2 == Some(KeyEvent::Unrecognized)
            &&& s2 == DecoderState::Start
        }),
{
}

/// The input decoder: feeds on single read outcomes and yields at most
/// one key event per fed outcome.
pub struct Decoder {
    pub state: DecoderState,
}

impl Decoder {
    pub fn new() -> (r: Self)
        ensures
            r.state == DecoderState::Start,
    {
        Self { state: DecoderState::Start }
    }

    /// Feeds one read outcome: a byte, or `None` for a timed-out read.
    /// Behaves exactly as the transition function [`spec_step`] says.
    pub fn feed(&mut self, b: Option<u8>) -> (r: Option<KeyEvent>)
        ensures
            final(self).state == spec_step(old(self).state, b).0,
            r == spec_step(old(self).state, b).1,
    {
        let (next, event): (DecoderState, Option<KeyEvent>) = match self.state {
            DecoderState::Start => match b {
                None => (DecoderState::Start, None),
                Some(c) => {
                    if c == EXIT_CONTROL_BYTE {
                        (DecoderState::Start, Some(KeyEvent::ControlExit))
                    } else if c == ESCAPE_BYTE {
                        (DecoderState::EscapeSeen, None)
                    } else {
                        (DecoderState::Start, Some(KeyEvent::PrintableByte(c)))
                    }
                },
            },
            DecoderState::EscapeSeen => match b {
                None => (DecoderState::Start, Some(KeyEvent::Unrecognized)),
                Some(c) => {
                    if c == 0x5b {
                        (DecoderState::BracketSeen, None)
                    } else if c == 0x4f {
                        (DecoderState::AlternateSeen, None)
                    } else {
                        (DecoderState::Start, Some(KeyEvent::Unrecognized))
                    }
                },
            },
            DecoderState::BracketSeen => match b {
                None => (DecoderState::Start, Some(KeyEvent::Unrecognized)),
                Some(c) => {
                    if 0x30 <= c && c <= 0x39 {
                        (DecoderState::DigitSeen(c), None)
                    } else if c == 0x41 {
                        (DecoderState::Start, Some(KeyEvent::ArrowUp))
                    } else if c == 0x42 {
                        (DecoderState::Start, Some(KeyEvent::ArrowDown))
                    } else if c == 0x43 {
                        (DecoderState::Start, Some(KeyEvent::ArrowRight))
                    } else if c == 0x44 {
                        (DecoderState::Start, Some(KeyEvent::ArrowLeft))
                    } else if c == 0x48 {
                        (DecoderState::Start, Some(KeyEvent::Home))
                    } else if c == 0x46 {
                        (DecoderState::Start, Some(KeyEvent::End))
                    } else {
                        (DecoderState::Start, Some(KeyEvent::Unrecognized))
                    }
                },
            },
            DecoderState::DigitSeen(d) => match b {
                None => (DecoderState::Start, Some(KeyEvent::Unrecognized)),
                Some(c) => {
                    if c == 0x7e {
                        (DecoderState::Start, Some(tilde_event(d)))
                    } else {
                        (DecoderState::Start, Some(KeyEvent::Unrecognized))
                    }
                },
            },
            DecoderState::AlternateSeen => match b {
                None => (DecoderState::Start, Some(KeyEvent::Unrecognized)),
                Some(c) => {
                    if c == 0x48 {
                        (DecoderState::Start, Some(KeyEvent::Home))
                    } else if c == 0x46 {
                        (DecoderState::Start, Some(KeyEvent::End))
                    } else {
                        (DecoderState::Start, Some(KeyEvent::Unrecognized))
                    }
                },
            },
        };
        self.state = next;
        event
    }
}

/// Executable form of [`spec_tilde_event`].
fn tilde_event(digit: u8) -> (r: KeyEvent)
    ensures
        r == spec_tilde_event(digit),
{
    if digit == 0x31 || digit == 0x37 {
        KeyEvent::Home
    } else if digit == 0x34 || digit == 0x38 {
        KeyEvent::End
    } else if digit == 0x35 {
        KeyEvent::PageUp
    } else if digit == 0x36 {
        KeyEvent::PageDown
    } else {
        KeyEvent::Unrecognized
    }
}

} // verus!

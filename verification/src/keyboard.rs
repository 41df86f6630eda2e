//! Keyboard decoder: a stateful scancode-to-key-event translator. Each call
//! feeds exactly one raw byte and yields zero or one decoded key.
//!
//! The decoding itself — scancode-set state machine and layout mapping — is
//! done by the `pc_keyboard` crate behind a trusted boundary; everything
//! that acts on a decoded key is verified against the names below.

use vstd::prelude::*;

verus! {

/// A decoded key: a printable/control character, one of the two arrow keys
/// the console acts on, or some other non-printable key identified by its
/// key-code number.
#[derive(Debug, Clone, Copy, PartialEq, Eq, Structural)]
pub enum KeyPress {
    /// A character key (printable, or a control such as backspace, delete
    /// or newline).
    Char(char),
    /// The left-arrow key.
    ArrowLeft,
    /// The right-arrow key.
    ArrowRight,
    /// Any other non-printable key, carrying its key-code number.
    OtherRaw(u8),
}

/// The bytes fed to a decoder since it was created.
pub uninterp spec fn fed_bytes(d: KeyDecoder) -> Seq<u8>;

/// The key, if any, that feeding exactly the byte history `fed` yields on
/// its last byte. The decoder is a deterministic state machine: its output
/// is a function of the byte history alone.
pub uninterp spec fn key_decode(fed: Seq<u8>) -> Option<KeyPress>;

/// The scancode decoder: accumulates raw bytes into a pending key event
/// across calls. Internally this drives a `pc_keyboard` PS/2 decoder with
/// the US-104 layout and scancode set 1.
#[verifier::external_body]
pub struct KeyDecoder {
    inner: pc_keyboard::PS2Keyboard<pc_keyboard::layouts::Us104Key, pc_keyboard::ScancodeSet1>,
}

impl KeyDecoder {
    /// A fresh decoder with an empty byte history.
    ///
    /// Relies on `pc_keyboard::PS2Keyboard::new`, which starts the scancode
    /// state machine in its idle state with no bytes consumed.
    #[verifier::external_body]
    pub fn new() -> (d: KeyDecoder)
        ensures
            fed_bytes(d) == Seq::<u8>::empty(),
    {
        KeyDecoder {
            inner: pc_keyboard::PS2Keyboard::new(
                pc_keyboard::ScancodeSet1::new(),
                pc_keyboard::layouts::Us104Key,
                pc_keyboard::HandleControl::Ignore,
            ),
        }
    }

    /// Feed one raw byte; yields the decoded key if the byte completes a
    /// scancode sequence, and `None` otherwise.
    ///
    /// Relies on `pc_keyboard::PS2Keyboard::add_byte` and
    /// `process_keyevent`: both are deterministic in the bytes fed so far,
    /// so the result is named as a function of the byte history. A decode
    /// error is treated as no key, as is a key event that the layout drops
    /// (a key release). The two arrow keys are lifted into the library's
    /// key model; every other non-printable key keeps only its key-code
    /// number.
    #[verifier::external_body]
    pub fn feed(&mut self, byte: u8) -> (r: Option<KeyPress>)
        ensures
            fed_bytes(*final(self)) == fed_bytes(*old(self)).push(byte),
            r == key_decode(fed_bytes(*final(self))),
    {
        match self.inner.add_byte(byte) {
            Ok(Some(ev)) => match self.inner.process_keyevent(ev) {
                Some(pc_keyboard::DecodedKey::Unicode(c)) => Some(KeyPress::Char(c)),
                Some(pc_keyboard::DecodedKey::RawKey(pc_keyboard::KeyCode::ArrowLeft)) => Some(
                    KeyPress::ArrowLeft,
                ),
                Some(pc_keyboard::DecodedKey::RawKey(pc_keyboard::KeyCode::ArrowRight)) => Some(
                    KeyPress::ArrowRight,
                ),
                Some(pc_keyboard::DecodedKey::RawKey(k)) => Some(KeyPress::OtherRaw(k as u8)),
                None => None,
            },
            _ => None,
        }
    }
}

} // verus!

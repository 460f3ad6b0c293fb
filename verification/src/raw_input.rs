//! Raw keyboard input: decoding the bytes of a raw input packet, and the
//! rules that say which key events are worth a notification.
//!
//! A packet is a header (type, size, device handle, extra parameter)
//! followed by the device data, all little-endian. The two handle-sized
//! header fields make the header 16 bytes long on a 32-bit system and 24 on
//! a 64-bit one.

use vstd::prelude::*;

verus! {

/// The packet type of keyboard input.
pub const RIM_TYPEKEYBOARD: u32 = 1;

/// The window message for a key going down.
pub const WM_KEYDOWN: u32 = 256;

/// The window message for a key coming up.
pub const WM_KEYUP: u32 = 257;

/// Virtual key: either control key.
pub const VK_CONTROL: u16 = 17;

/// Virtual key: either alt key.
pub const VK_MENU: u16 = 18;

/// Virtual key: the left OS key.
pub const VK_LWIN: u16 = 91;

/// Virtual key: the right OS key.
pub const VK_RWIN: u16 = 92;

/// Virtual key: switch to alphanumeric input on a Japanese keyboard.
pub const VK_JP_EISU: u16 = 240;

/// Virtual key: input method off on a Japanese keyboard.
pub const VK_JP_IME_OFF: u16 = 243;

/// Virtual key: input method on on a Japanese keyboard.
pub const VK_JP_IME_ON: u16 = 244;

/// The length of the keyboard data that follows the header.
pub const KEYBOARD_DATA_LEN: usize = 16;

/// The size of a handle in the packets to decode.
#[derive(Clone, Copy, Debug, PartialEq, Eq, Structural)]
pub enum PointerWidth {
    /// Four bytes.
    Bits32,
    /// Eight bytes.
    Bits64,
}

/// The keyboard data of a raw input packet.
#[derive(Clone, Copy, Debug, PartialEq, Eq, Structural)]
pub struct RawKeyboard {
    pub make_code: u16,
    pub flags: u16,
    pub reserved: u16,
    pub vkey: u16,
    pub message: u32,
    pub extra_information: u32,
}

/// Why a buffer is not a keyboard packet.
#[derive(Clone, Copy, Debug, PartialEq, Eq, Structural)]
pub enum DecodeError {
    /// The buffer ends inside the header.
    TruncatedHeader,
    /// The header names another kind of device.
    NotKeyboard,
    /// The buffer ends inside the keyboard data.
    TruncatedData,
}

/// Which key events one program variant takes as a hint of a change.
#[derive(Clone, Copy, Debug, PartialEq, Eq, Structural)]
pub enum KeyRule {
    /// A modifier key was released: control, alt or an OS key.
    ModifierReleased,
    /// One of the three input method keys of a Japanese keyboard went down.
    ImeKeyPressed,
}

/// The length of the packet header.
pub open spec fn header_len(width: PointerWidth) -> int {
    match width {
        PointerWidth::Bits32 => 16,
        PointerWidth::Bits64 => 24,
    }
}

/// The two bytes at `at`, read as a little-endian number.
pub open spec fn le_u16(bytes: Seq<u8>, at: int) -> int {
    bytes[at] + 256 * bytes[at + 1]
}

/// The four bytes at `at`, read as a little-endian number.
pub open spec fn le_u32(bytes: Seq<u8>, at: int) -> int {
    bytes[at] + 256 * bytes[at + 1] + 65536 * bytes[at + 2] + 16777216 * bytes[at + 3]
}

/// The keyboard data that starts at `at`.
pub open spec fn keyboard_at(bytes: Seq<u8>, at: int) -> RawKeyboard {
    RawKeyboard {
        make_code: le_u16(bytes, at) as u16,
        flags: le_u16(bytes, at + 2) as u16,
        reserved: le_u16(bytes, at + 4) as u16,
        vkey: le_u16(bytes, at + 6) as u16,
        message: le_u32(bytes, at + 8) as u32,
        extra_information: le_u32(bytes, at + 12) as u32,
    }
}

/// What `bytes` decode to.
pub open spec fn decoded(bytes: Seq<u8>, width: PointerWidth) -> Result<RawKeyboard, DecodeError> {
    if bytes.len() < header_len(width) {
        Err(DecodeError::TruncatedHeader)
    } else if le_u32(bytes, 0) != RIM_TYPEKEYBOARD {
        Err(DecodeError::NotKeyboard)
    } else if bytes.len() < header_len(width) + KEYBOARD_DATA_LEN {
        Err(DecodeError::TruncatedData)
    } else {
        Ok(keyboard_at(bytes, header_len(width)))
    }
}

/// Whether `key` is an event that `rule` is after.
pub open spec fn key_triggers(rule: KeyRule, key: RawKeyboard) -> bool {
    match rule {
        KeyRule::ModifierReleased => key.message == WM_KEYUP && (key.vkey == VK_CONTROL || key.vkey
            == VK_LWIN || key.vkey == VK_RWIN || key.vkey == VK_MENU),
        KeyRule::ImeKeyPressed => key.message == WM_KEYDOWN && (key.vkey == VK_JP_IME_ON || key.vkey
            == VK_JP_IME_OFF || key.vkey == VK_JP_EISU),
    }
}

/// Whether a packet that was read into `bytes` asks for a deposit: the read
/// copied as many bytes as the packet was said to have, the bytes are a
/// keyboard packet, and the key event is one the rule is after.
pub open spec fn packet_triggers(
    rule: KeyRule,
    announced: u32,
    copied: u32,
    bytes: Seq<u8>,
    width: PointerWidth,
) -> bool {
    copied == announced && match decoded(bytes, width) {
        Ok(key) => key_triggers(rule, key),
        Err(_) => false,
    }
}

fn read_u16(buffer: &[u8], at: usize) -> (value: u16)
    requires
        at + 2 <= buffer.len(),
    ensures
        value == le_u16(buffer@, at as int),
{
    let low: u16 = buffer[at] as u16;
    let high: u16 = buffer[at + 1] as u16;
    low + 256 * high
}

fn read_u32(buffer: &[u8], at: usize) -> (value: u32)
    requires
        at + 4 <= buffer.len(),
    ensures
        value == le_u32(buffer@, at as int),
{
    let b0: u32 = buffer[at] as u32;
    let b1: u32 = buffer[at + 1] as u32;
    let b2: u32 = buffer[at + 2] as u32;
    let b3: u32 = buffer[at + 3] as u32;
    b0 + 256 * b1 + 65536 * b2 + 16777216 * b3
}

impl PointerWidth {
    /// The length of the packet header with handles of this size.
    pub fn header_len(self) -> (len: usize)
        ensures
            len == header_len(self),
    {
        match self {
            PointerWidth::Bits32 => 16,
            PointerWidth::Bits64 => 24,
        }
    }
}

/// Decodes a raw input packet that should hold keyboard data. The length is
/// checked before any field is read, and the type field before the data.
pub fn decode_keyboard_input(buffer: &[u8], width: PointerWidth) -> (result: Result<
    RawKeyboard,
    DecodeError,
>)
    ensures
        result == decoded(buffer@, width),
{
    let header: usize = width.header_len();
    if buffer.len() < header {
        return Err(DecodeError::TruncatedHeader);
    }
    if read_u32(buffer, 0) != RIM_TYPEKEYBOARD {
        return Err(DecodeError::NotKeyboard);
    }
    if buffer.len() < header + KEYBOARD_DATA_LEN {
        return Err(DecodeError::TruncatedData);
    }
    Ok(
        RawKeyboard {
            make_code: read_u16(buffer, header),
            flags: read_u16(buffer, header + 2),
            reserved: read_u16(buffer, header + 4),
            vkey: read_u16(buffer, header + 6),
            message: read_u32(buffer, header + 8),
            extra_information: read_u32(buffer, header + 12),
        },
    )
}

impl KeyRule {
    /// Whether `key` is an event this rule is after.
    pub fn triggers(self, key: &RawKeyboard) -> (wanted: bool)
        ensures
            wanted == key_triggers(self, *key),
    {
        match self {
            KeyRule::ModifierReleased => key.message == WM_KEYUP && (key.vkey == VK_CONTROL
                || key.vkey == VK_LWIN || key.vkey == VK_RWIN || key.vkey == VK_MENU),
            KeyRule::ImeKeyPressed => key.message == WM_KEYDOWN && (key.vkey == VK_JP_IME_ON
                || key.vkey == VK_JP_IME_OFF || key.vkey == VK_JP_EISU),
        }
    }
}

/// Decides whether the raw input packet just read is worth a deposit.
/// `announced` is the size the system gave for the packet and `copied` the
/// number of bytes the read reported.
pub fn raw_input_deposits(
    rule: KeyRule,
    announced: u32,
    copied: u32,
    buffer: &[u8],
    width: PointerWidth,
) -> (deposit: bool)
    ensures
        deposit == packet_triggers(rule, announced, copied, buffer@, width),
{
    if copied != announced {
        return false;
    }
    match decode_keyboard_input(buffer, width) {
        Ok(key) => rule.triggers(&key),
        Err(_) => false,
    }
}

/// A malformed packet never asks for a deposit, whatever the rule.
pub proof fn lemma_malformed_packet_is_ignored(
    rule: KeyRule,
    announced: u32,
    copied: u32,
    bytes: Seq<u8>,
    width: PointerWidth,
)
    requires
        bytes.len() < header_len(width) + KEYBOARD_DATA_LEN || le_u32(bytes, 0) != RIM_TYPEKEYBOARD
            || copied != announced,
    ensures
        !packet_triggers(rule, announced, copied, bytes, width),
{
}

/// The two rules never fire on the same key event.
pub proof fn lemma_rules_are_disjoint(key: RawKeyboard)
    ensures
        !(key_triggers(KeyRule::ModifierReleased, key) && key_triggers(KeyRule::ImeKeyPressed, key)),
{
}

} // verus!

//! Uniform key model and the firmware text-input decode table.

use vstd::prelude::*;

verus! {

/// A key press, as the rest of the loader sees it.
#[derive(Debug, Clone, Copy, PartialEq, Eq, Structural)]
pub enum Key {
    /// Printable characters.
    Printable(char),
    /// Non-printable key press, including arrow keys.
    Accelerator(AcceleratorKey),
    /// A key the decoder does not know; the native code is kept for diagnostics.
    Unknown(u16),
}

#[derive(Debug, Clone, Copy, PartialEq, Eq, Structural)]
pub enum AcceleratorKey {
    Esc,
    Tab,
    PrtSc,
    PgUp,
    PgDn,
    Up,
    Down,
    Left,
    Right,
    Backspace,
    Home,
    End,
    Insert,
    Delete,
    Enter,
    F(u8),
}

#[derive(Debug, Clone, Copy, PartialEq, Eq, Structural)]
pub enum ModifierKey {
    Ctrl,
    Shift,
    Alt,
}

/// A key as the firmware's simple text input protocol reports it: either a
/// UCS-2 character or a scan code.
#[derive(Debug, Clone, Copy, PartialEq, Eq, Structural)]
pub enum EfiKey {
    Printable(char),
    Special(u16),
}

pub const SCAN_UP: u16 = 0x01;
pub const SCAN_DOWN: u16 = 0x02;
pub const SCAN_RIGHT: u16 = 0x03;
pub const SCAN_LEFT: u16 = 0x04;
pub const SCAN_HOME: u16 = 0x05;
pub const SCAN_END: u16 = 0x06;
pub const SCAN_INSERT: u16 = 0x07;
pub const SCAN_DELETE: u16 = 0x08;
pub const SCAN_PAGE_UP: u16 = 0x09;
pub const SCAN_PAGE_DOWN: u16 = 0x0A;
pub const SCAN_ESCAPE: u16 = 0x17;

/// The decode table from firmware keys to [`Key`].
pub open spec fn decode_efi(raw: EfiKey) -> Key {
    match raw {
        EfiKey::Printable(c) => {
            if c == '\x08' {
                Key::Accelerator(AcceleratorKey::Backspace)
            } else if c == '\t' {
                Key::Accelerator(AcceleratorKey::Tab)
            } else if c == '\r' {
                Key::Accelerator(AcceleratorKey::Enter)
            } else {
                Key::Printable(c)
            }
        },
        EfiKey::Special(code) => {
            if code == SCAN_UP {
                Key::Accelerator(AcceleratorKey::Up)
            } else if code == SCAN_DOWN {
                Key::Accelerator(AcceleratorKey::Down)
            } else if code == SCAN_LEFT {
                Key::Accelerator(AcceleratorKey::Left)
            } else if code == SCAN_RIGHT {
                Key::Accelerator(AcceleratorKey::Right)
            } else if code == SCAN_PAGE_UP {
                Key::Accelerator(AcceleratorKey::PgUp)
            } else if code == SCAN_PAGE_DOWN {
                Key::Accelerator(AcceleratorKey::PgDn)
            } else if code == SCAN_ESCAPE {
                Key::Accelerator(AcceleratorKey::Esc)
            } else if code == SCAN_HOME {
                Key::Accelerator(AcceleratorKey::Home)
            } else if code == SCAN_END {
                Key::Accelerator(AcceleratorKey::End)
            } else if code == SCAN_INSERT {
                Key::Accelerator(AcceleratorKey::Insert)
            } else if code == SCAN_DELETE {
                Key::Accelerator(AcceleratorKey::Delete)
            } else {
                Key::Unknown(code)
            }
        },
    }
}

impl Key {
    /// Decodes a firmware key press.
    pub fn from_efi(raw: EfiKey) -> (k: Key)
        ensures
            k == decode_efi(raw),
    {
        match raw {
            EfiKey::Printable(c) => {
                if c == '\x08' {
                    Key::Accelerator(AcceleratorKey::Backspace)
                } else if c == '\t' {
                    Key::Accelerator(AcceleratorKey::Tab)
                } else if c == '\r' {
                    Key::Accelerator(AcceleratorKey::Enter)
                } else {
                    Key::Printable(c)
                }
            },
            EfiKey::Special(code) => {
                if code == SCAN_UP {
                    Key::Accelerator(AcceleratorKey::Up)
                } else if code == SCAN_DOWN {
                    Key::Accelerator(AcceleratorKey::Down)
                } else if code == SCAN_LEFT {
                    Key::Accelerator(AcceleratorKey::Left)
                } else if code == SCAN_RIGHT {
                    Key::Accelerator(AcceleratorKey::Right)
                } else if code == SCAN_PAGE_UP {
                    Key::Accelerator(AcceleratorKey::PgUp)
                } else if code == SCAN_PAGE_DOWN {
                    Key::Accelerator(AcceleratorKey::PgDn)
                } else if code == SCAN_ESCAPE {
                    Key::Accelerator(AcceleratorKey::Esc)
                } else if code == SCAN_HOME {
                    Key::Accelerator(AcceleratorKey::Home)
                } else if code == SCAN_END {
                    Key::Accelerator(AcceleratorKey::End)
                } else if code == SCAN_INSERT {
                    Key::Accelerator(AcceleratorKey::Insert)
                } else if code == SCAN_DELETE {
                    Key::Accelerator(AcceleratorKey::Delete)
                } else {
                    Key::Unknown(code)
                }
            },
        }
    }
}

} // verus!

//! Serial terminals driven by ANSI escape sequences: the control sequences
//! the loader writes, and the decode table for the bytes a terminal sends.

use vstd::prelude::*;
use vstd::string::*;
use crate::console::ConsoleStyle;
use crate::key::{AcceleratorKey, Key};
use crate::text::{decimal, push_char, push_decimal};

verus! {

/// ANSI compatible terminal.
pub struct ANSIConsole {}

/// The select-graphic-rendition parameters of a style.
pub open spec fn style_codes(style: ConsoleStyle) -> Seq<char> {
    let codes = (if style.bold {
        seq![';', '1']
    } else {
        Seq::empty()
    }) + (if style.reverse {
        seq![';', '7']
    } else {
        Seq::empty()
    }) + (if style.blink {
        seq![';', '5']
    } else {
        Seq::empty()
    });
    codes.drop_first()
}

/// `s` shown with `style`, then the style switched off again.
pub open spec fn styled(s: Seq<char>, style: ConsoleStyle) -> Seq<char> {
    if style.bold || style.reverse || style.blink {
        seq!['\x1b', '['] + style_codes(style) + seq!['m'] + s + seq!['\x1b', '[', '0', 'm']
    } else {
        s
    }
}

/// The sequence that moves the cursor to column `x`, row `y` (from 0).
pub open spec fn cursor_sequence(x: nat, y: nat) -> Seq<char> {
    seq!['\x1b', '['] + decimal(y + 1) + seq![';'] + decimal(x + 1) + seq!['H']
}

impl ANSIConsole {
    /// `s` in `style`; a plain style leaves `s` as it is.
    pub fn apply_style(s: &str, style: ConsoleStyle) -> (r: String)
        ensures
            r@ == styled(s@, style),
    {
        if !(style.bold || style.reverse || style.blink) {
            return String::from_str(s);
        }
        let mut r = String::new();
        push_char(&mut r, '\x1b');
        push_char(&mut r, '[');
        let ghost start = r@;
        let mut first = true;
        if style.bold {
            push_char(&mut r, '1');
            first = false;
        }
        if style.reverse {
            if !first {
                push_char(&mut r, ';');
            }
            push_char(&mut r, '7');
            first = false;
        }
        if style.blink {
            if !first {
                push_char(&mut r, ';');
            }
            push_char(&mut r, '5');
        }
        proof {
            assert(r@ =~= start + style_codes(style));
        }
        push_char(&mut r, 'm');
        r.append(s);
        push_char(&mut r, '\x1b');
        push_char(&mut r, '[');
        push_char(&mut r, '0');
        push_char(&mut r, 'm');
        proof {
            assert(r@ =~= styled(s@, style));
        }
        r
    }

    /// The sequence that moves the cursor to column `x`, row `y`, counting
    /// from 0.
    pub fn set_pos(x: i32, y: i32) -> (r: String)
        requires
            0 <= x,
            0 <= y,
        ensures
            r@ == cursor_sequence(x as nat, y as nat),
    {
        let mut r = String::new();
        push_char(&mut r, '\x1b');
        push_char(&mut r, '[');
        push_decimal(&mut r, y as usize + 1);
        push_char(&mut r, ';');
        push_decimal(&mut r, x as usize + 1);
        push_char(&mut r, 'H');
        proof {
            assert(r@ =~= cursor_sequence(x as nat, y as nat));
        }
        r
    }

    /// The sequence that resets the terminal to its initial state.
    pub fn reset() -> (r: String)
        ensures
            r@ == seq!['\x1b', 'c'],
    {
        let mut r = String::new();
        push_char(&mut r, '\x1b');
        push_char(&mut r, 'c');
        proof {
            assert(r@ =~= seq!['\x1b', 'c']);
        }
        r
    }
}

/// Where the decoder stands in an escape sequence.
#[derive(Debug, Clone, Copy, PartialEq, Eq, Structural)]
pub enum AnsiState {
    Ground,
    /// After ESC.
    Escape,
    /// After ESC `[`, with the numeric parameter read so far.
    Csi(u8),
    /// After ESC `O`.
    Ss3,
}

/// Largest numeric parameter the decoder keeps; larger ones stay at this value.
pub const MAX_PARAM: u8 = 99;

/// The key for a byte outside any escape sequence.
pub open spec fn ground_key(b: u8) -> Key {
    if b == 0x0d || b == 0x0a {
        Key::Accelerator(AcceleratorKey::Enter)
    } else if b == 0x09 {
        Key::Accelerator(AcceleratorKey::Tab)
    } else if b == 0x7f || b == 0x08 {
        Key::Accelerator(AcceleratorKey::Backspace)
    } else if 0x20 <= b <= 0x7e {
        Key::Printable(b as char)
    } else {
        Key::Unknown(b as u16)
    }
}

/// The key that ESC `[` `param` `~` stands for.
pub open spec fn tilde_key(param: u8) -> Key {
    if param == 1 || param == 7 {
        Key::Accelerator(AcceleratorKey::Home)
    } else if param == 2 {
        Key::Accelerator(AcceleratorKey::Insert)
    } else if param == 3 {
        Key::Accelerator(AcceleratorKey::Delete)
    } else if param == 4 || param == 8 {
        Key::Accelerator(AcceleratorKey::End)
    } else if param == 5 {
        Key::Accelerator(AcceleratorKey::PgUp)
    } else if param == 6 {
        Key::Accelerator(AcceleratorKey::PgDn)
    } else if 11 <= param <= 15 {
        Key::Accelerator(AcceleratorKey::F((param - 10) as u8))
    } else if 17 <= param <= 21 {
        Key::Accelerator(AcceleratorKey::F((param - 11) as u8))
    } else if param == 23 || param == 24 {
        Key::Accelerator(AcceleratorKey::F((param - 12) as u8))
    } else {
        Key::Unknown(param as u16)
    }
}

/// The key that ESC `[` followed by the final byte `b` stands for.
pub open spec fn csi_key(param: u8, b: u8) -> Key {
    if b == 0x41 {
        Key::Accelerator(AcceleratorKey::Up)
    } else if b == 0x42 {
        Key::Accelerator(AcceleratorKey::Down)
    } else if b == 0x43 {
        Key::Accelerator(AcceleratorKey::Right)
    } else if b == 0x44 {
        Key::Accelerator(AcceleratorKey::Left)
    } else if b == 0x48 {
        Key::Accelerator(AcceleratorKey::Home)
    } else if b == 0x46 {
        Key::Accelerator(AcceleratorKey::End)
    } else if b == 0x7e {
        tilde_key(param)
    } else {
        Key::Unknown(b as u16)
    }
}

/// The key that ESC `O` followed by `b` stands for.
pub open spec fn ss3_key(b: u8) -> Key {
    if 0x50 <= b <= 0x53 {
        Key::Accelerator(AcceleratorKey::F((b - 0x4f) as u8))
    } else if b == 0x48 {
        Key::Accelerator(AcceleratorKey::Home)
    } else if b == 0x46 {
        Key::Accelerator(AcceleratorKey::End)
    } else {
        Key::Unknown(b as u16)
    }
}

/// One step of the decoder: the next state and the keys completed by `b`.
pub open spec fn ansi_step(state: AnsiState, b: u8) -> (AnsiState, Seq<Key>) {
    match state {
        AnsiState::Ground => if b == 0x1b {
            (AnsiState::Escape, Seq::empty())
        } else {
            (AnsiState::Ground, seq![ground_key(b)])
        },
        AnsiState::Escape => if b == 0x5b {
            (AnsiState::Csi(0), Seq::empty())
        } else if b == 0x4f {
            (AnsiState::Ss3, Seq::empty())
        } else if b == 0x1b {
            (AnsiState::Escape, seq![Key::Accelerator(AcceleratorKey::Esc)])
        } else {
            (AnsiState::Ground, seq![Key::Accelerator(AcceleratorKey::Esc), ground_key(b)])
        },
        AnsiState::Csi(param) => if 0x30 <= b <= 0x39 {
            let next = param * 10 + (b - 0x30);
            (AnsiState::Csi(if next > MAX_PARAM { MAX_PARAM } else { next as u8 }), Seq::empty())
        } else {
            (AnsiState::Ground, seq![csi_key(param, b)])
        },
        AnsiState::Ss3 => (AnsiState::Ground, seq![ss3_key(b)]),
    }
}

/// Turns the bytes a serial terminal sends into keys.
pub struct AnsiDecoder {
    state: AnsiState,
}

impl AnsiDecoder {
    pub closed spec fn state(&self) -> AnsiState {
        self.state
    }

    pub fn new() -> (d: AnsiDecoder)
        ensures
            d.state() == AnsiState::Ground,
    {
        AnsiDecoder { state: AnsiState::Ground }
    }

    fn ground_key(b: u8) -> (k: Key)
        ensures
            k == ground_key(b),
    {
        if b == 0x0d || b == 0x0a {
            Key::Accelerator(AcceleratorKey::Enter)
        } else if b == 0x09 {
            Key::Accelerator(AcceleratorKey::Tab)
        } else if b == 0x7f || b == 0x08 {
            Key::Accelerator(AcceleratorKey::Backspace)
        } else if 0x20 <= b && b <= 0x7e {
            Key::Printable(b as char)
        } else {
            Key::Unknown(b as u16)
        }
    }

    fn tilde_key(param: u8) -> (k: Key)
        ensures
            k == tilde_key(param),
    {
        if param == 1 || param == 7 {
            Key::Accelerator(AcceleratorKey::Home)
        } else if param == 2 {
            Key::Accelerator(AcceleratorKey::Insert)
        } else if param == 3 {
            Key::Accelerator(AcceleratorKey::Delete)
        } else if param == 4 || param == 8 {
            Key::Accelerator(AcceleratorKey::End)
        } else if param == 5 {
            Key::Accelerator(AcceleratorKey::PgUp)
        } else if param == 6 {
            Key::Accelerator(AcceleratorKey::PgDn)
        } else if 11 <= param && param <= 15 {
            Key::Accelerator(AcceleratorKey::F(param - 10))
        } else if 17 <= param && param <= 21 {
            Key::Accelerator(AcceleratorKey::F(param - 11))
        } else if param == 23 || param == 24 {
            Key::Accelerator(AcceleratorKey::F(param - 12))
        } else {
            Key::Unknown(param as u16)
        }
    }

    fn csi_key(param: u8, b: u8) -> (k: Key)
        ensures
            k == csi_key(param, b),
    {
        if b == 0x41 {
            Key::Accelerator(AcceleratorKey::Up)
        } else if b == 0x42 {
            Key::Accelerator(AcceleratorKey::Down)
        } else if b == 0x43 {
            Key::Accelerator(AcceleratorKey::Right)
        } else if b == 0x44 {
            Key::Accelerator(AcceleratorKey::Left)
        } else if b == 0x48 {
            Key::Accelerator(AcceleratorKey::Home)
        } else if b == 0x46 {
            Key::Accelerator(AcceleratorKey::End)
        } else if b == 0x7e {
            Self::tilde_key(param)
        } else {
            Key::Unknown(b as u16)
        }
    }

    fn ss3_key(b: u8) -> (k: Key)
        ensures
            k == ss3_key(b),
    {
        if 0x50 <= b && b <= 0x53 {
            Key::Accelerator(AcceleratorKey::F(b - 0x4f))
        } else if b == 0x48 {
            Key::Accelerator(AcceleratorKey::Home)
        } else if b == 0x46 {
            Key::Accelerator(AcceleratorKey::End)
        } else {
            Key::Unknown(b as u16)
        }
    }

    /// Takes one byte and gives the keys it completes (none, one, or two when
    /// a byte ends a lone ESC).
    pub fn feed(&mut self, b: u8) -> (keys: Vec<Key>)
        ensures
            (final(self).state(), keys@) == ansi_step(old(self).state(), b),
    {
        let mut keys: Vec<Key> = Vec::new();
        match self.state {
            AnsiState::Ground => {
                if b == 0x1b {
                    self.state = AnsiState::Escape;
                } else {
                    keys.push(Self::ground_key(b));
                }
            },
            AnsiState::Escape => {
                if b == 0x5b {
                    self.state = AnsiState::Csi(0);
                } else if b == 0x4f {
                    self.state = AnsiState::Ss3;
                } else if b == 0x1b {
                    keys.push(Key::Accelerator(AcceleratorKey::Esc));
                } else {
                    keys.push(Key::Accelerator(AcceleratorKey::Esc));
                    keys.push(Self::ground_key(b));
                    self.state = AnsiState::Ground;
                }
            },
            AnsiState::Csi(param) => {
                if 0x30 <= b && b <= 0x39 {
                    let next: u16 = param as u16 * 10 + (b - 0x30) as u16;
                    self.state = AnsiState::Csi(
                        if next > MAX_PARAM as u16 {
                            MAX_PARAM
                        } else {
                            next as u8
                        },
                    );
                } else {
                    keys.push(Self::csi_key(param, b));
                    self.state = AnsiState::Ground;
                }
            },
            AnsiState::Ss3 => {
                keys.push(Self::ss3_key(b));
                self.state = AnsiState::Ground;
            },
        }
        proof {
            assert(keys@ =~= ansi_step(old(self).state(), b).1);
        }
        keys
    }

    /// Ends a pending sequence when no more bytes come (the terminal sent a
    /// lone ESC): gives Esc after a bare ESC, and returns to the ground state.
    pub fn flush(&mut self) -> (k: Option<Key>)
        ensures
            final(self).state() == AnsiState::Ground,
            old(self).state() == AnsiState::Escape ==> k == Some(Key::Accelerator(AcceleratorKey::Esc)),
            old(self).state() != AnsiState::Escape ==> k is None,
    {
        let k = match self.state {
            AnsiState::Escape => Some(Key::Accelerator(AcceleratorKey::Esc)),
            _ => None,
        };
        self.state = AnsiState::Ground;
        k
    }
}

} // verus!

//! Serial-based console: a byte transport plus in-band terminal control.
//! Any stream-based, in-band controlled console fits.

use vstd::prelude::*;
use crate::ansi::{ansi_step, ANSIConsole, AnsiDecoder, AnsiState};
use crate::console::ConsoleStyle;
use crate::error::B2Error;
use crate::key::Key;

verus! {

/// A byte stream.
pub trait Stream {
    /// Every byte written to the stream so far.
    spec fn sent(&self) -> Seq<u8>;

    fn read(&mut self, buf: &mut [u8]) -> Result<i32, B2Error>;

    /// Writes all of `buf`, or nothing on error.
    fn write(&mut self, buf: &[u8]) -> (r: Result<i32, B2Error>)
        ensures
            r is Ok ==> final(self).sent() == old(self).sent() + buf@,
            r is Err ==> final(self).sent() == old(self).sent(),
    ;
}

/// A serial port: 8 data bits, no parity, no hardware flow control.
pub trait SerialConsole: Stream {
    fn set_baud_rate(baud: i32) -> Result<(), B2Error>;
}

/// Control sequences of a terminal. A terminal without a feature gives an
/// empty sequence for it.
pub trait Terminal {
    /// The sequence that resets the terminal, echo included.
    spec fn reset_bytes() -> Seq<u8>;

    /// The sequence that makes the terminal show what is typed.
    spec fn echo_on_bytes() -> Seq<u8>;

    /// The sequence that stops the terminal from showing what is typed.
    spec fn echo_off_bytes() -> Seq<u8>;

    /// `s` shown in `style`.
    fn apply_style(s: &str, style: ConsoleStyle) -> String;

    /// Moves the cursor to column `x`, row `y`, counting from 0; a negative
    /// position gives an empty sequence.
    fn set_pos(x: i32, y: i32) -> String;

    fn reset() -> (r: Vec<u8>)
        ensures
            r@ == Self::reset_bytes(),
    ;

    fn echo_on() -> (r: Vec<u8>)
        ensures
            r@ == Self::echo_on_bytes(),
    ;

    fn echo_off() -> (r: Vec<u8>)
        ensures
            r@ == Self::echo_off_bytes(),
    ;
}

impl Terminal for ANSIConsole {
    /// Full reset (RIS): the terminal's initial state, local echo included.
    open spec fn reset_bytes() -> Seq<u8> {
        seq![0x1bu8, 0x63]
    }

    /// Send/receive mode off: the terminal echoes locally.
    open spec fn echo_on_bytes() -> Seq<u8> {
        seq![0x1bu8, 0x5b, 0x31, 0x32, 0x6c]
    }

    /// Send/receive mode on: no local echo.
    open spec fn echo_off_bytes() -> Seq<u8> {
        seq![0x1bu8, 0x5b, 0x31, 0x32, 0x68]
    }

    fn apply_style(s: &str, style: ConsoleStyle) -> String {
        ANSIConsole::apply_style(s, style)
    }

    fn set_pos(x: i32, y: i32) -> String {
        if x < 0 || y < 0 {
            String::new()
        } else {
            ANSIConsole::set_pos(x, y)
        }
    }

    fn reset() -> (r: Vec<u8>) {
        let mut r: Vec<u8> = Vec::new();
        r.push(0x1b);
        r.push(0x63);
        proof {
            assert(r@ =~= seq![0x1bu8, 0x63]);
        }
        r
    }

    fn echo_on() -> (r: Vec<u8>) {
        let mut r: Vec<u8> = Vec::new();
        r.push(0x1b);
        r.push(0x5b);
        r.push(0x31);
        r.push(0x32);
        r.push(0x6c);
        proof {
            assert(r@ =~= seq![0x1bu8, 0x5b, 0x31, 0x32, 0x6c]);
        }
        r
    }

    fn echo_off() -> (r: Vec<u8>) {
        let mut r: Vec<u8> = Vec::new();
        r.push(0x1b);
        r.push(0x5b);
        r.push(0x31);
        r.push(0x32);
        r.push(0x68);
        proof {
            assert(r@ =~= seq![0x1bu8, 0x5b, 0x31, 0x32, 0x68]);
        }
        r
    }
}

/// A terminal on a serial transport `T`, controlled by the sequences of `U`.
pub struct SerialTerminal<T: SerialConsole, U: Terminal> {
    backend: T,
    console: U,
    decoder: AnsiDecoder,
}

impl<T: SerialConsole, U: Terminal> SerialTerminal<T, U> {
    pub closed spec fn backend(&self) -> T {
        self.backend
    }

    /// Where decoding of the incoming bytes stands.
    pub closed spec fn input_state(&self) -> AnsiState {
        self.decoder.state()
    }

    /// Creates the console from a transport and a terminal control.
    pub fn from_serial_impl(b: T, c: U) -> (r: Self)
        ensures
            r.backend() == b,
            r.input_state() == AnsiState::Ground,
    {
        SerialTerminal { backend: b, console: c, decoder: AnsiDecoder::new() }
    }

    /// Gives the transport back. The terminal is not reset.
    pub fn release(self) -> (r: T)
        ensures
            r == self.backend(),
    {
        self.backend
    }

    /// Sends the terminal's reset sequence, in one write, and drops any
    /// partly received escape sequence. A failed write is returned as it came.
    pub fn reset(&mut self) -> (r: Result<(), B2Error>)
        ensures
            final(self).input_state() == AnsiState::Ground,
            r is Ok ==> final(self).backend().sent() == old(self).backend().sent()
                + U::reset_bytes(),
            r is Err ==> final(self).backend().sent() == old(self).backend().sent(),
    {
        let _ = self.decoder.flush();
        let seq = U::reset();
        match self.backend.write(seq.as_slice()) {
            Ok(_) => Ok(()),
            Err(e) => Err(e),
        }
    }

    /// Turns the terminal's local echo on or off, in one write.
    pub fn set_echo(&mut self, on: bool) -> (r: Result<(), B2Error>)
        ensures
            final(self).input_state() == old(self).input_state(),
            r is Ok ==> final(self).backend().sent() == old(self).backend().sent() + if on {
                U::echo_on_bytes()
            } else {
                U::echo_off_bytes()
            },
            r is Err ==> final(self).backend().sent() == old(self).backend().sent(),
    {
        let seq = if on {
            U::echo_on()
        } else {
            U::echo_off()
        };
        match self.backend.write(seq.as_slice()) {
            Ok(_) => Ok(()),
            Err(e) => Err(e),
        }
    }

    /// Decodes one received byte into the keys it completes.
    pub fn receive(&mut self, b: u8) -> (keys: Vec<Key>)
        ensures
            (final(self).input_state(), keys@) == ansi_step(old(self).input_state(), b),
            final(self).backend() == old(self).backend(),
    {
        self.decoder.feed(b)
    }
}

} // verus!

//! Console data types and line entry without editing.

use vstd::prelude::*;
use crate::key::{AcceleratorKey, Key};
use crate::text::string_of;

verus! {

/// Style of terminal text. A console that has no styles writes plain text.
#[derive(Debug, Clone, Copy, PartialEq, Eq, Structural)]
pub struct ConsoleStyle {
    /// Bold text.
    pub bold: bool,
    /// Highlighted text.
    pub reverse: bool,
    /// Blinking text.
    pub blink: bool,
}

/// Size of a terminal, in characters.
#[derive(Debug, Clone, Copy, PartialEq, Eq, Structural)]
pub struct ConsoleInfo {
    pub width: usize,
    pub height: usize,
}

/// How typed characters are shown while a line is read without editing.
#[derive(Debug, Clone, Copy, PartialEq, Eq, Structural)]
pub enum EchoMode {
    /// Nothing is shown.
    Silent,
    /// Each character is shown as `*`.
    Mask,
}

/// What the console has to do after a key, while a line is read.
#[derive(Debug, Clone, Copy, PartialEq, Eq, Structural)]
pub enum ReadAction {
    Nothing,
    /// Print this character.
    Echo(char),
    /// Enter was pressed: print a newline; this many characters were read.
    Finished(usize),
}

/// Reads a line key by key, keeping the printable characters; used for
/// passwords. Nothing but Enter edits or ends the line.
pub struct SecretReader {
    chars: Vec<char>,
    mode: EchoMode,
}

impl SecretReader {
    pub closed spec fn chars(&self) -> Seq<char> {
        self.chars@
    }

    pub closed spec fn mode(&self) -> EchoMode {
        self.mode
    }

    pub fn new(mode: EchoMode) -> (r: SecretReader)
        ensures
            r.chars() == Seq::<char>::empty(),
            r.mode() == mode,
    {
        SecretReader { chars: Vec::new(), mode }
    }

    /// Takes one key: a printable character is kept (and shown as `*` when
    /// masking), Enter ends the line, any other key is ignored.
    pub fn feed(&mut self, key: Key) -> (a: ReadAction)
        ensures
            final(self).mode() == old(self).mode(),
            match key {
                Key::Printable(c) => {
                    &&& old(self).chars().len() < usize::MAX ==> final(self).chars() == old(
                        self,
                    ).chars().push(c)
                    &&& old(self).chars().len() == usize::MAX ==> final(self).chars() == old(
                        self,
                    ).chars()
                    &&& a == if old(self).mode() == EchoMode::Mask
                        && old(self).chars().len() < usize::MAX {
                        ReadAction::Echo('*')
                    } else {
                        ReadAction::Nothing
                    }
                },
                Key::Accelerator(AcceleratorKey::Enter) => {
                    &&& final(self).chars() == old(self).chars()
                    &&& a == ReadAction::Finished(old(self).chars().len() as usize)
                },
                _ => final(self).chars() == old(self).chars() && a == ReadAction::Nothing,
            },
    {
        match key {
            Key::Printable(c) => {
                if self.chars.len() == usize::MAX {
                    return ReadAction::Nothing;
                }
                self.chars.push(c);
                match self.mode {
                    EchoMode::Mask => ReadAction::Echo('*'),
                    EchoMode::Silent => ReadAction::Nothing,
                }
            },
            Key::Accelerator(AcceleratorKey::Enter) => ReadAction::Finished(self.chars.len()),
            _ => ReadAction::Nothing,
        }
    }

    /// The characters read so far.
    pub fn text(&self) -> (r: String)
        ensures
            r@ == self.chars(),
    {
        string_of(self.chars.as_slice())
    }
}

} // verus!

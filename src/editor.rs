//! In-place line editing with a scrolling viewport.
//!
//! The editor is a state machine: the console driver reads a key, hands it
//! to [`LineEditor::process`], and carries out the returned [`EditAction`].

use vstd::prelude::*;
use crate::error::B2Error;
use crate::key::{AcceleratorKey, Key};
use crate::text::{chars_of, push_char};

verus! {

/// Narrowest terminal on which a line is edited.
pub const MIN_TERMINAL_WIDTH: usize = 32;

/// What the editor holds, as mathematical values.
pub struct EditorState {
    pub buffer: Seq<char>,
    /// Cursor offset into the buffer.
    pub str_pos: int,
    /// First buffer position shown on screen.
    pub left_pos: int,
    /// Insert (true) or overwrite mode.
    pub insert: bool,
    /// Number of buffer characters that fit after the prompt.
    pub width: int,
}

/// What the console has to do after a key.
#[derive(Debug, Clone, Copy, PartialEq, Eq, Structural)]
pub enum EditAction {
    /// No visible change.
    Nothing,
    /// Print this character at the cursor: it was appended and still fits.
    Echo(char),
    /// Redraw the whole line (see [`LineEditor::frame`]).
    Redraw,
    /// Enter was pressed: print a newline; the line has this many characters.
    Finished(usize),
}

/// Left edge of the viewport once the cursor is at `pos`: it moves only as
/// far as needed to keep the cursor visible.
pub open spec fn follow(left: int, pos: int, width: int) -> int {
    if pos < left {
        pos
    } else if pos - left >= width {
        pos - width + 1
    } else {
        left
    }
}

impl EditorState {
    /// The editor's invariant: `0 <= left_pos <= str_pos <= len(buffer)` and
    /// `str_pos - left_pos < width`.
    pub open spec fn wf(self) -> bool {
        &&& 0 <= self.left_pos <= self.str_pos <= self.buffer.len()
        &&& self.str_pos - self.left_pos < self.width
    }

    /// The state before any key, with the cursor after `text`.
    pub open spec fn start(text: Seq<char>, width: int) -> EditorState {
        EditorState {
            buffer: text,
            str_pos: text.len() as int,
            left_pos: follow(0, text.len() as int, width),
            insert: true,
            width,
        }
    }

    pub open spec fn moved_to(self, pos: int) -> EditorState {
        EditorState {
            buffer: self.buffer,
            str_pos: pos,
            left_pos: follow(self.left_pos, pos, self.width),
            insert: self.insert,
            width: self.width,
        }
    }

    pub open spec fn with_buffer(self, buffer: Seq<char>) -> EditorState {
        EditorState {
            buffer,
            str_pos: self.str_pos,
            left_pos: self.left_pos,
            insert: self.insert,
            width: self.width,
        }
    }

    /// Whether one more character fits in the buffer.
    pub open spec fn has_room(self) -> bool {
        self.buffer.len() < usize::MAX
    }

    /// `c` typed at the cursor: inserted, or written over the character there.
    pub open spec fn typed(self, c: char) -> EditorState {
        let buffer = if self.insert || self.str_pos == self.buffer.len() {
            self.buffer.insert(self.str_pos, c)
        } else {
            self.buffer.update(self.str_pos, c)
        };
        self.with_buffer(buffer).moved_to(self.str_pos + 1)
    }

    /// Cursor target of Up / Page Up: one viewport toward the start.
    pub open spec fn page_up_pos(self) -> int {
        if self.str_pos > self.width {
            self.str_pos - self.width
        } else {
            0
        }
    }

    /// Cursor target of Down / Page Down: one viewport toward the end.
    pub open spec fn page_down_pos(self) -> int {
        if self.buffer.len() - self.str_pos > self.width {
            self.str_pos + self.width
        } else {
            self.buffer.len() as int
        }
    }

    /// The state after `key`.
    pub open spec fn after_key(self, key: Key) -> EditorState {
        match key {
            Key::Printable(c) => if self.has_room() {
                self.typed(c)
            } else {
                self
            },
            Key::Accelerator(a) => match a {
                AcceleratorKey::Backspace => if self.str_pos > 0 {
                    self.with_buffer(self.buffer.remove(self.str_pos - 1)).moved_to(
                        self.str_pos - 1,
                    )
                } else {
                    self
                },
                AcceleratorKey::Delete => if self.str_pos < self.buffer.len() {
                    self.with_buffer(self.buffer.remove(self.str_pos))
                } else {
                    self
                },
                AcceleratorKey::Left => if self.str_pos > 0 {
                    self.moved_to(self.str_pos - 1)
                } else {
                    self
                },
                AcceleratorKey::Right => if self.str_pos < self.buffer.len() {
                    self.moved_to(self.str_pos + 1)
                } else {
                    self
                },
                AcceleratorKey::Home => self.moved_to(0),
                AcceleratorKey::End => self.moved_to(self.buffer.len() as int),
                AcceleratorKey::Up | AcceleratorKey::PgUp => self.moved_to(self.page_up_pos()),
                AcceleratorKey::Down | AcceleratorKey::PgDn => self.moved_to(self.page_down_pos()),
                AcceleratorKey::Insert => EditorState {
                    buffer: self.buffer,
                    str_pos: self.str_pos,
                    left_pos: self.left_pos,
                    insert: !self.insert,
                    width: self.width,
                },
                _ => self,
            },
            Key::Unknown(_) => self,
        }
    }

    /// The console's task after `key`.
    pub open spec fn action(self, key: Key) -> EditAction {
        match key {
            Key::Printable(c) => if !self.has_room() {
                EditAction::Nothing
            } else if self.str_pos == self.buffer.len() && self.typed(c).left_pos
                == self.left_pos {
                EditAction::Echo(c)
            } else {
                EditAction::Redraw
            },
            Key::Accelerator(a) => match a {
                AcceleratorKey::Enter => EditAction::Finished(self.buffer.len() as usize),
                AcceleratorKey::Backspace | AcceleratorKey::Left => if self.str_pos > 0 {
                    EditAction::Redraw
                } else {
                    EditAction::Nothing
                },
                AcceleratorKey::Delete | AcceleratorKey::Right => if self.str_pos
                    < self.buffer.len() {
                    EditAction::Redraw
                } else {
                    EditAction::Nothing
                },
                AcceleratorKey::Home | AcceleratorKey::End | AcceleratorKey::Up
                | AcceleratorKey::PgUp | AcceleratorKey::Down | AcceleratorKey::PgDn => {
                    EditAction::Redraw
                },
                _ => EditAction::Nothing,
            },
            Key::Unknown(_) => EditAction::Nothing,
        }
    }

    /// The part of the buffer shown after the prompt.
    pub open spec fn visible(self) -> Seq<char> {
        let end = if self.left_pos + self.width < self.buffer.len() {
            self.left_pos + self.width
        } else {
            self.buffer.len() as int
        };
        self.buffer.subrange(self.left_pos, end)
    }
}

/// The state after each of `keys` in turn.
pub open spec fn after_keys(s: EditorState, keys: Seq<Key>) -> EditorState
    decreases keys.len(),
{
    if keys.len() == 0 {
        s
    } else {
        after_keys(s, keys.drop_last()).after_key(keys.last())
    }
}

/// One key keeps the editor's invariant.
pub proof fn lemma_key_keeps_invariant(s: EditorState, key: Key)
    requires
        s.wf(),
    ensures
        s.after_key(key).wf(),
{
}

/// The editor's invariant holds after every key of any sequence.
pub proof fn lemma_keys_keep_invariant(s: EditorState, keys: Seq<Key>)
    requires
        s.wf(),
    ensures
        after_keys(s, keys).wf(),
    decreases keys.len(),
{
    if keys.len() > 0 {
        lemma_keys_keep_invariant(s, keys.drop_last());
        lemma_key_keeps_invariant(after_keys(s, keys.drop_last()), keys.last());
    }
}

/// A line being edited, with its prompt.
pub struct LineEditor {
    buffer: Vec<char>,
    str_pos: usize,
    left_pos: usize,
    insert: bool,
    width: usize,
    prompt: Vec<char>,
}

impl View for LineEditor {
    type V = EditorState;

    closed spec fn view(&self) -> EditorState {
        EditorState {
            buffer: self.buffer@,
            str_pos: self.str_pos as int,
            left_pos: self.left_pos as int,
            insert: self.insert,
            width: self.width as int,
        }
    }
}

fn follow_exec(left: usize, pos: usize, width: usize) -> (r: usize)
    requires
        width >= 1,
    ensures
        r == follow(left as int, pos as int, width as int),
{
    if pos < left {
        pos
    } else if pos - left >= width {
        pos - width + 1
    } else {
        left
    }
}

impl LineEditor {
    pub closed spec fn wf(&self) -> bool {
        &&& self@.wf()
        &&& self.prompt@.len() + self.width < usize::MAX
    }

    pub closed spec fn prompt(&self) -> Seq<char> {
        self.prompt@
    }

    /// Starts editing `initial` after `prompt` on a terminal `terminal_width`
    /// columns wide. The last column stays free, so `terminal_width - 1 -
    /// len(prompt)` characters of the buffer are visible at a time.
    ///
    /// Fails with [`B2Error::TerminalTooNarrow`] when the terminal is narrower
    /// than [`MIN_TERMINAL_WIDTH`] or leaves no column after the prompt.
    pub fn new(prompt: &str, initial: &str, terminal_width: usize) -> (r: Result<
        LineEditor,
        B2Error,
    >)
        ensures
            terminal_width < MIN_TERMINAL_WIDTH || terminal_width <= prompt@.len() + 1 <==> r is Err,
            r matches Err(e) ==> e == B2Error::TerminalTooNarrow,
            r matches Ok(ed) ==> {
                &&& ed.wf()
                &&& ed.prompt() == prompt@
                &&& ed@ == EditorState::start(
                    initial@,
                    terminal_width - 1 - prompt@.len(),
                )
            },
    {
        let prompt = chars_of(prompt);
        if terminal_width < MIN_TERMINAL_WIDTH || terminal_width - 1 <= prompt.len() {
            return Err(B2Error::TerminalTooNarrow);
        }
        let width = terminal_width - 1 - prompt.len();
        let buffer = chars_of(initial);
        let str_pos = buffer.len();
        let left_pos = follow_exec(0, str_pos, width);
        Ok(LineEditor { buffer, str_pos, left_pos, insert: true, width, prompt })
    }

    /// Applies one key.
    pub fn process(&mut self, key: Key) -> (a: EditAction)
        requires
            old(self).wf(),
        ensures
            final(self).wf(),
            final(self)@ == old(self)@.after_key(key),
            final(self).prompt() == old(self).prompt(),
            a == old(self)@.action(key),
    {
        let len = self.buffer.len();
        match key {
            Key::Printable(c) => {
                if len == usize::MAX {
                    return EditAction::Nothing;
                }
                let at_end = self.str_pos == len;
                if self.insert || at_end {
                    self.buffer.insert(self.str_pos, c);
                } else {
                    self.buffer.set(self.str_pos, c);
                }
                let left = follow_exec(self.left_pos, self.str_pos + 1, self.width);
                let unmoved = left == self.left_pos;
                self.str_pos = self.str_pos + 1;
                self.left_pos = left;
                if at_end && unmoved {
                    EditAction::Echo(c)
                } else {
                    EditAction::Redraw
                }
            },
            Key::Accelerator(a) => match a {
                AcceleratorKey::Enter => EditAction::Finished(len),
                AcceleratorKey::Backspace => {
                    if self.str_pos == 0 {
                        return EditAction::Nothing;
                    }
                    self.buffer.remove(self.str_pos - 1);
                    self.move_to(self.str_pos - 1);
                    EditAction::Redraw
                },
                AcceleratorKey::Delete => {
                    if self.str_pos == len {
                        return EditAction::Nothing;
                    }
                    self.buffer.remove(self.str_pos);
                    EditAction::Redraw
                },
                AcceleratorKey::Left => {
                    if self.str_pos == 0 {
                        return EditAction::Nothing;
                    }
                    self.move_to(self.str_pos - 1);
                    EditAction::Redraw
                },
                AcceleratorKey::Right => {
                    if self.str_pos == len {
                        return EditAction::Nothing;
                    }
                    self.move_to(self.str_pos + 1);
                    EditAction::Redraw
                },
                AcceleratorKey::Home => {
                    self.move_to(0);
                    EditAction::Redraw
                },
                AcceleratorKey::End => {
                    self.move_to(len);
                    EditAction::Redraw
                },
                AcceleratorKey::Up | AcceleratorKey::PgUp => {
                    let pos = if self.str_pos > self.width {
                        self.str_pos - self.width
                    } else {
                        0
                    };
                    self.move_to(pos);
                    EditAction::Redraw
                },
                AcceleratorKey::Down | AcceleratorKey::PgDn => {
                    let pos = if len - self.str_pos > self.width {
                        self.str_pos + self.width
                    } else {
                        len
                    };
                    self.move_to(pos);
                    EditAction::Redraw
                },
                AcceleratorKey::Insert => {
                    self.insert = !self.insert;
                    EditAction::Nothing
                },
                _ => EditAction::Nothing,
            },
            Key::Unknown(_) => EditAction::Nothing,
        }
    }

    fn move_to(&mut self, pos: usize)
        requires
            old(self).width >= 1,
            old(self).prompt@.len() + old(self).width < usize::MAX,
            pos <= old(self).buffer@.len(),
        ensures
            final(self)@ == old(self)@.moved_to(pos as int),
            final(self).prompt == old(self).prompt,
            final(self).wf(),
    {
        self.left_pos = follow_exec(self.left_pos, pos, self.width);
        self.str_pos = pos;
    }

    /// The line as the console shows it after a redraw: the prompt, then the
    /// visible part of the buffer.
    pub fn frame(&self) -> (r: String)
        requires
            self.wf(),
        ensures
            r@ == self.prompt() + self@.visible(),
    {
        let mut r = String::new();
        let mut i: usize = 0;
        while i < self.prompt.len()
            invariant
                i <= self.prompt@.len(),
                r@ == self.prompt@.subrange(0, i as int),
            decreases self.prompt@.len() - i,
        {
            push_char(&mut r, self.prompt[i]);
            i = i + 1;
            proof {
                assert(r@ =~= self.prompt@.subrange(0, i as int));
            }
        }
        let end = if self.buffer.len() - self.left_pos > self.width {
            self.left_pos + self.width
        } else {
            self.buffer.len()
        };
        let mut j: usize = self.left_pos;
        while j < end
            invariant
                self.left_pos <= j <= end <= self.buffer@.len(),
                r@ == self.prompt@ + self.buffer@.subrange(self.left_pos as int, j as int),
            decreases end - j,
        {
            push_char(&mut r, self.buffer[j]);
            j = j + 1;
            proof {
                assert(r@ =~= self.prompt@ + self.buffer@.subrange(self.left_pos as int, j as int));
            }
        }
        r
    }

    /// Screen column of the cursor after a redraw.
    pub fn cursor_column(&self) -> (c: usize)
        requires
            self.wf(),
        ensures
            c == self.prompt().len() + self@.str_pos - self@.left_pos,
    {
        self.prompt.len() + (self.str_pos - self.left_pos)
    }

    /// Cursor offset into the buffer.
    pub fn str_pos(&self) -> (r: usize)
        ensures
            r == self@.str_pos,
    {
        self.str_pos
    }

    /// First buffer position shown on screen.
    pub fn left_pos(&self) -> (r: usize)
        ensures
            r == self@.left_pos,
    {
        self.left_pos
    }

    /// Number of buffer characters visible at a time.
    pub fn width(&self) -> (r: usize)
        ensures
            r == self@.width,
    {
        self.width
    }

    pub fn insert_mode(&self) -> (r: bool)
        ensures
            r == self@.insert,
    {
        self.insert
    }

    /// The text typed so far.
    pub fn text(&self) -> (r: String)
        ensures
            r@ == self@.buffer,
    {
        crate::text::string_of(self.buffer.as_slice())
    }
}

} // verus!

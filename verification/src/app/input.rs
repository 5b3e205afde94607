//! Editing the text typed into the input popup: the text is a sequence
//! of characters and the cursor a position in it.
use vstd::prelude::*;

use super::App;
use super::helpers::{
    lemma_line_end_bounds, lemma_line_start_bounds, line_end, line_end_from, line_start,
    line_start_before_or_at,
};
use crate::text::{chars_of, string_of};

verus! {

/// The cursor held inside the text.
pub open spec fn clamp(cursor: int, len: int) -> int {
    if cursor < len {
        cursor
    } else {
        len
    }
}

pub open spec fn min_int(a: int, b: int) -> int {
    if a < b {
        a
    } else {
        b
    }
}

/// The text with `ch` typed at the (clamped) cursor.
pub open spec fn inserted(s: Seq<char>, cursor: int, ch: char) -> Seq<char> {
    let c = clamp(cursor, s.len() as int);
    s.take(c) + seq![ch] + s.skip(c)
}

/// Where the cursor goes one line up, keeping its column where the line
/// above is long enough.
pub open spec fn cursor_up(s: Seq<char>, cursor: int) -> int {
    if s.len() == 0 || cursor == 0 {
        cursor
    } else {
        let c = clamp(cursor, s.len() as int);
        let cs = line_start(s, c);
        if cs == 0 {
            0
        } else {
            let col = c - cs;
            let pe = cs - 1;
            let ps = line_start(s, pe);
            ps + min_int(col, pe - ps)
        }
    }
}

/// Where the cursor goes one line down, keeping its column where the line
/// below is long enough; from the last line, to the end of the text.
pub open spec fn cursor_down(s: Seq<char>, cursor: int) -> int {
    if s.len() == 0 {
        cursor
    } else {
        let c = clamp(cursor, s.len() as int);
        let cs = line_start(s, c);
        let ce = line_end(s, cs);
        if ce >= s.len() {
            s.len() as int
        } else {
            let col = c - cs;
            let ns = ce + 1;
            let ne = line_end(s, ns);
            ns + min_int(col, ne - ns)
        }
    }
}

impl App {
    /// Types `ch` at the cursor (held inside the text) and moves past it.
    pub fn push_input_char(&mut self, ch: char)
        requires
            old(self).input_buffer@.len() < usize::MAX,
        ensures
            *final(self) == (App {
                input_buffer: final(self).input_buffer,
                input_cursor: (clamp(old(self).input_cursor as int, old(self).input_buffer@.len() as int) + 1) as usize,
                ..*old(self)
            }),
            final(self).input_buffer@ == inserted(old(self).input_buffer@, old(self).input_cursor as int, ch),
    {
        self.insert_input_char(ch);
    }

    fn insert_input_char(&mut self, ch: char)
        requires
            old(self).input_buffer@.len() < usize::MAX,
        ensures
            *final(self) == (App {
                input_buffer: final(self).input_buffer,
                input_cursor: (clamp(old(self).input_cursor as int, old(self).input_buffer@.len() as int) + 1) as usize,
                ..*old(self)
            }),
            final(self).input_buffer@ == inserted(old(self).input_buffer@, old(self).input_cursor as int, ch),
    {
        let mut chars = chars_of(self.input_buffer.as_str());
        let c = if self.input_cursor > chars.len() {
            chars.len()
        } else {
            self.input_cursor
        };
        let ghost before = chars@;
        chars.insert(c, ch);
        assert(chars@ =~= before.take(c as int) + seq![ch] + before.skip(c as int));
        self.input_cursor = c + 1;
        self.input_buffer = string_of(&chars);
    }

    /// Deletes the character before the cursor (held inside the text).
    pub fn pop_input_char(&mut self)
        ensures
            ({
                let s = old(self).input_buffer@;
                let c = clamp(old(self).input_cursor as int, s.len() as int);
                if old(self).input_cursor == 0 {
                    *final(self) == *old(self)
                } else if c == 0 {
                    *final(self) == (App { input_cursor: 0, ..*old(self) })
                } else {
                    *final(self) == (App { input_buffer: final(self).input_buffer, input_cursor: (c - 1) as usize, ..*old(self) })
                        && final(self).input_buffer@ == s.remove(c - 1)
                }
            }),
    {
        self.delete_input_char_before_cursor();
    }

    fn delete_input_char_before_cursor(&mut self)
        ensures
            ({
                let s = old(self).input_buffer@;
                let c = clamp(old(self).input_cursor as int, s.len() as int);
                if old(self).input_cursor == 0 {
                    *final(self) == *old(self)
                } else if c == 0 {
                    *final(self) == (App { input_cursor: 0, ..*old(self) })
                } else {
                    *final(self) == (App { input_buffer: final(self).input_buffer, input_cursor: (c - 1) as usize, ..*old(self) })
                        && final(self).input_buffer@ == s.remove(c - 1)
                }
            }),
    {
        if self.input_cursor == 0 {
            return;
        }
        let mut chars = chars_of(self.input_buffer.as_str());
        let c = if self.input_cursor > chars.len() {
            chars.len()
        } else {
            self.input_cursor
        };
        if c == 0 {
            self.input_cursor = 0;
            return;
        }
        chars.remove(c - 1);
        self.input_cursor = c - 1;
        self.input_buffer = string_of(&chars);
    }

    /// Deletes the character at the cursor, if there is one.
    pub fn delete_input_char(&mut self)
        ensures
            old(self).input_cursor >= old(self).input_buffer@.len() ==> *final(self) == *old(self),
            old(self).input_cursor < old(self).input_buffer@.len() ==> *final(self) == (App {
                input_buffer: final(self).input_buffer,
                ..*old(self)
            }) && final(self).input_buffer@ == old(self).input_buffer@.remove(old(self).input_cursor as int),
    {
        let mut chars = chars_of(self.input_buffer.as_str());
        if self.input_cursor >= chars.len() {
            return;
        }
        chars.remove(self.input_cursor);
        self.input_buffer = string_of(&chars);
    }

    /// Moves the cursor one character left, not past the start.
    pub fn move_input_cursor_left(&mut self)
        ensures
            *final(self) == (App {
                input_cursor: if old(self).input_cursor > 0 { (old(self).input_cursor - 1) as usize } else { 0 },
                ..*old(self)
            }),
    {
        self.input_cursor = self.input_cursor.saturating_sub(1);
    }

    /// Moves the cursor one character right, not past the end.
    pub fn move_input_cursor_right(&mut self)
        ensures
            *final(self) == (App {
                input_cursor: min_int(old(self).input_cursor + 1, old(self).input_buffer@.len() as int) as usize,
                ..*old(self)
            }),
    {
        let len = self.input_buffer.as_str().unicode_len();
        self.input_cursor = if self.input_cursor < len {
            self.input_cursor + 1
        } else {
            len
        };
    }

    /// Moves the cursor to the start of the text.
    pub fn move_input_cursor_home(&mut self)
        ensures
            *final(self) == (App { input_cursor: 0, ..*old(self) }),
    {
        self.input_cursor = 0;
    }

    /// Moves the cursor to the end of the text.
    pub fn move_input_cursor_end(&mut self)
        ensures
            *final(self) == (App { input_cursor: old(self).input_buffer@.len() as usize, ..*old(self) }),
    {
        self.input_cursor = self.input_buffer.as_str().unicode_len();
    }

    /// Moves the cursor one line up.
    pub fn move_input_cursor_up(&mut self)
        ensures
            *final(self) == (App {
                input_cursor: cursor_up(old(self).input_buffer@, old(self).input_cursor as int) as usize,
                ..*old(self)
            }),
    {
        let chars = chars_of(self.input_buffer.as_str());
        self.input_cursor = cursor_up_exec(&chars, self.input_cursor);
    }

    /// Moves the cursor one line down.
    pub fn move_input_cursor_down(&mut self)
        ensures
            *final(self) == (App {
                input_cursor: cursor_down(old(self).input_buffer@, old(self).input_cursor as int) as usize,
                ..*old(self)
            }),
    {
        let chars = chars_of(self.input_buffer.as_str());
        self.input_cursor = cursor_down_exec(&chars, self.input_cursor);
    }
}

fn cursor_up_exec(chars: &Vec<char>, input_cursor: usize) -> (res: usize)
    ensures
        res == cursor_up(chars@, input_cursor as int),
{
    if chars.len() == 0 || input_cursor == 0 {
        return input_cursor;
    }
    let cursor = if input_cursor < chars.len() {
        input_cursor
    } else {
        chars.len()
    };
    let current_start = line_start_before_or_at(chars, cursor);
    proof {
        lemma_line_start_bounds(chars@, cursor as int);
    }
    if current_start == 0 {
        return 0;
    }
    let current_col = cursor - current_start;
    let prev_end = current_start - 1;
    let prev_start = line_start_before_or_at(chars, prev_end);
    proof {
        lemma_line_start_bounds(chars@, prev_end as int);
    }
    let prev_len = prev_end - prev_start;
    prev_start + if current_col < prev_len {
        current_col
    } else {
        prev_len
    }
}

fn cursor_down_exec(chars: &Vec<char>, input_cursor: usize) -> (res: usize)
    ensures
        res == cursor_down(chars@, input_cursor as int),
{
    if chars.len() == 0 {
        return input_cursor;
    }
    let cursor = if input_cursor < chars.len() {
        input_cursor
    } else {
        chars.len()
    };
    let current_start = line_start_before_or_at(chars, cursor);
    proof {
        lemma_line_start_bounds(chars@, cursor as int);
    }
    let current_end = line_end_from(chars, current_start);
    proof {
        lemma_line_end_bounds(chars@, current_start as int);
    }
    if current_end >= chars.len() {
        return chars.len();
    }
    let current_col = cursor - current_start;
    let next_start = current_end + 1;
    let next_end = line_end_from(chars, next_start);
    proof {
        lemma_line_end_bounds(chars@, next_start as int);
    }
    let next_len = next_end - next_start;
    next_start + if current_col < next_len {
        current_col
    } else {
        next_len
    }
}

/// Typing a character and then deleting the one before the cursor gives
/// back the text, with the cursor where the typing put the character.
pub proof fn law_insert_then_delete(s: Seq<char>, cursor: int, ch: char)
    requires
        0 <= cursor,
    ensures
        ({
            let c = clamp(cursor, s.len() as int);
            &&& inserted(s, cursor, ch).remove(c) == s
            &&& clamp(c + 1, inserted(s, cursor, ch).len() as int) - 1 == c
        }),
{
    let c = clamp(cursor, s.len() as int);
    assert(inserted(s, cursor, ch).remove(c) =~= s);
}

/// The cursor never leaves the text after moving up or down.
pub proof fn law_vertical_moves_stay_inside(s: Seq<char>, cursor: int)
    requires
        0 <= cursor <= s.len(),
    ensures
        0 <= cursor_up(s, cursor) <= s.len(),
        0 <= cursor_down(s, cursor) <= s.len(),
{
    if s.len() > 0 {
        let c = clamp(cursor, s.len() as int);
        lemma_line_start_bounds(s, c);
        let cs = line_start(s, c);
        if cs > 0 {
            lemma_line_start_bounds(s, cs - 1);
        }
        lemma_line_end_bounds(s, cs);
        let ce = line_end(s, cs);
        if ce < s.len() {
            lemma_line_end_bounds(s, ce + 1);
        }
    }
}

} // verus!

//! A single-line text prompt: its editing state and the widget that shows it.
use vstd::prelude::*;
use crate::buffer::{edge_room, run_len, set_at, write_run, Buffer, CellView};
use crate::event::{Key, KeyCode, KeyMod};
use crate::geometry::{min_int, sat_add16, sat_sub};
use crate::rect::{margined, Rect};
use crate::style::{BorderKind, Color, Style};
use crate::unicode::{char_range, char_slice, display_width, graphemes_of, str_width};
use crate::buffer::Cell;
use crate::geometry::Margin;
use super::borders::{border_cells, Borders};
use super::Draw;

verus! {

/// An edit or cursor move of a prompt
#[derive(Debug, Clone, PartialEq, Eq)]
pub enum PromptAction {
    /// Insert a character at the cursor
    Char(char),
    /// Insert a string at the cursor
    String(String),
    /// Delete characters left of the cursor
    DeleteLeft(usize),
    /// Delete characters right of the cursor
    DeleteRight(usize),
    DeleteNextWord,
    DeletePrevWord,
    /// Delete from the start to the cursor
    DeleteToStart,
    /// Delete from the cursor to the end
    DeleteToEnd,
    /// Delete everything
    Clear,
    MoveLeft(usize),
    MoveRight(usize),
    /// Move to the end of the next word
    MoveNextWord,
    /// Move to the start of the previous word
    MovePrevWord,
    MoveStart,
    MoveEnd,
    MoveTo(usize),
}

/// What a prompt holds: its text, the cursor position, and the text's width.
pub type PromptView = (Seq<char>, int, int);

/// The state with its cursor moved to `pos`, clamped to the width.
pub open spec fn moved_to(s: PromptView, pos: int) -> PromptView {
    (s.0, min_int(pos, s.2), s.2)
}

/// The state with new text, measured again; the cursor stays.
pub open spec fn with_text(s: PromptView, v: Seq<char>) -> PromptView {
    (v, s.1, display_width(v) as int)
}

/// `v` with `ins` inserted at character `pos`.
pub open spec fn inserted(v: Seq<char>, pos: int, ins: Seq<char>) -> Seq<char> {
    char_range(v, 0, pos) + ins + char_range(v, pos, v.len() as int)
}

/// `v` without characters `from..to`.
pub open spec fn removed(v: Seq<char>, from: int, to: int) -> Seq<char> {
    char_range(v, 0, from) + char_range(v, to, v.len() as int)
}

/// Whether position `i` of `v` holds a space.
pub open spec fn space_at(v: Seq<char>, i: int) -> bool {
    char_range(v, i, i + 1) == seq![' ']
}

/// Length of the word met when walking `ps[k..]`: leading spaces count, and
/// the walk stops at the first space after a non-space.
pub open spec fn word_over(v: Seq<char>, ps: Seq<usize>, k: int, seen: bool) -> int
    decreases ps.len() - k,
{
    if k < 0 || k >= ps.len() {
        0
    } else if space_at(v, ps[k] as int) {
        if seen { 0 } else { 1 + word_over(v, ps, k + 1, seen) }
    } else {
        1 + word_over(v, ps, k + 1, true)
    }
}

/// Positions `from..to`, in order.
pub open spec fn forward(from: int, to: int) -> Seq<usize> {
    Seq::new(if to > from { (to - from) as nat } else { 0 }, |i: int| (from + i) as usize)
}

/// Positions `0..to`, from the last down.
pub open spec fn backward(to: int) -> Seq<usize> {
    Seq::new(if to > 0 { to as nat } else { 0 }, |i: int| (to - 1 - i) as usize)
}

/// Editing state of a prompt
#[derive(Debug, Clone, PartialEq, Eq)]
pub struct PromptState {
    value: String,
    cursor_pos: usize,
    width: usize,
}

impl View for PromptState {
    type V = PromptView;

    closed spec fn view(&self) -> PromptView {
        (self.value@, self.cursor_pos as int, self.width as int)
    }
}

impl PromptState {
    /// The cached width is that of the text.
    pub closed spec fn wf(&self) -> bool {
        self.width == display_width(self.value@)
    }

    /// A prompt holding `value`, the cursor at its end
    pub fn new(value: &str) -> (r: Self)
        ensures
            r.wf(),
            r@ == (value@, display_width(value@) as int, display_width(value@) as int),
    {
        let width = str_width(value);
        PromptState { value: String::from_str(value), cursor_pos: width, width }
    }

    fn set_value(&mut self, value: String)
        ensures
            final(self).wf(),
            final(self)@ == with_text(old(self)@, value@),
            value@.len() == 0 ==> final(self)@.2 == 0,
    {
        self.width = str_width(value.as_str());
        self.value = value;
    }

    /// Moves the cursor to `pos`, at most to the end
    pub fn move_to(&mut self, pos: usize) -> (r: bool)
        ensures
            r,
            final(self).wf() == old(self).wf(),
            final(self)@ == moved_to(old(self)@, pos as int),
    {
        self.cursor_pos = if pos < self.width { pos } else { self.width };
        true
    }

    /// Moves the cursor to the start
    pub fn move_start(&mut self) -> (r: bool)
        ensures
            r,
            final(self).wf() == old(self).wf(),
            final(self)@ == moved_to(old(self)@, 0),
    {
        self.move_to(0)
    }

    /// Moves the cursor to the end
    pub fn move_end(&mut self) -> (r: bool)
        ensures
            r,
            final(self).wf() == old(self).wf(),
            final(self)@ == moved_to(old(self)@, old(self)@.2),
    {
        let w = self.width;
        self.move_to(w)
    }

    /// Moves the cursor `amount` to the left, stopping at the start
    pub fn move_left(&mut self, amount: usize) -> (r: bool)
        ensures
            r,
            final(self).wf() == old(self).wf(),
            final(self)@ == moved_to(old(self)@, sat_sub(old(self)@.1, amount as int)),
    {
        let p = self.cursor_pos.saturating_sub(amount);
        self.move_to(p)
    }

    /// Moves the cursor `amount` to the right, stopping at the end
    pub fn move_right(&mut self, amount: usize) -> (r: bool)
        ensures
            r,
            final(self).wf() == old(self).wf(),
            final(self)@ == moved_to(old(self)@, old(self)@.1 + amount),
    {
        let p = self.cursor_pos.saturating_add(amount);
        self.move_to(p)
    }

    /// The one-character string at `pos` (empty past the end)
    pub fn char_at(&self, pos: usize) -> (r: Option<&str>)
        requires
            pos < usize::MAX,
        ensures
            r matches Some(c) && c@ == char_range(self@.0, pos as int, pos + 1),
    {
        Some(char_slice(self.value.as_str(), pos, pos + 1))
    }

    /// Length of the word met when walking the given positions: leading
    /// spaces count, and the walk stops at the first space after a non-space.
    pub fn get_word_width(&self, positions: &Vec<usize>) -> (r: usize)
        ensures
            r == word_over(self@.0, positions@, 0, false),
    {
        let mut seen = false;
        let mut width: usize = 0;
        let mut k: usize = 0;
        let n = self.value.as_str().unicode_len();
        while k < positions.len()
            invariant
                n == self@.0.len(),
                k <= positions@.len(),
                width <= k,
                width + word_over(self@.0, positions@, k as int, seen) == word_over(
                    self@.0,
                    positions@,
                    0,
                    false,
                ),
            decreases positions@.len() - k,
        {
            let i = positions[k];
            let is_space = if i < usize::MAX {
                match self.char_at(i) {
                    Some(c) => {
                        proof {
                            reveal_strlit(" ");
                        }
                        c.unicode_len() == 1 && c.get_char(0) == ' '
                    },
                    None => false,
                }
            } else {
                false
            };
            proof {
                if i == usize::MAX {
                    assert(char_range(self@.0, i as int, i + 1).len() == 0);
                }
                if is_space {
                    assert(char_range(self@.0, i as int, i + 1) =~= seq![' ']);
                }
            }
            if is_space {
                if seen {
                    return width;
                }
                width = width + 1;
            } else {
                seen = true;
                width = width + 1;
            }
            k = k + 1;
        }
        width
    }

    /// Width of the word from `pos` towards the end
    pub fn get_next_word_width(&self, pos: usize) -> (r: usize)
        ensures
            r == word_over(self@.0, forward(pos as int, self@.2), 0, false),
    {
        let mut ps: Vec<usize> = Vec::new();
        let mut i = pos;
        while i < self.width
            invariant
                pos <= i,
                i <= self.width || i == pos,
                ps@ == forward(pos as int, i as int),
            decreases self.width - i,
        {
            ps.push(i);
            assert(ps@ =~= forward(pos as int, i + 1));
            i = i + 1;
        }
        assert(ps@ =~= forward(pos as int, self@.2));
        self.get_word_width(&ps)
    }

    /// Width of the word before `pos`, walking towards the start
    pub fn get_prev_word_width(&self, pos: usize) -> (r: usize)
        ensures
            r == word_over(self@.0, backward(pos as int), 0, false),
    {
        let mut ps: Vec<usize> = Vec::new();
        let mut i = pos;
        while i > 0
            invariant
                i <= pos,
                ps@ =~= Seq::new((pos - i) as nat, |j: int| (pos - 1 - j) as usize),
            decreases i,
        {
            ps.push(i - 1);
            assert(ps@ =~= Seq::new((pos - i + 1) as nat, |j: int| (pos - 1 - j) as usize));
            i = i - 1;
        }
        assert(ps@ =~= backward(pos as int));
        self.get_word_width(&ps)
    }

    /// Inserts a character at `pos` and moves the cursor one to the right
    pub fn push_char(&mut self, pos: usize, c: char) -> (r: bool)
        ensures
            r,
            final(self).wf(),
            final(self)@ == ({
                let s = with_text(old(self)@, inserted(old(self)@.0, pos as int, seq![c]));
                moved_to(s, old(self)@.1 + 1)
            }),
    {
        let v = self.value.as_str();
        let _n = v.unicode_len();
        let mut t = String::from_str(char_slice(v, 0, pos));
        t.append(crate::unicode::char_to_string(c).as_str());
        t.append(char_slice(v, pos, usize::MAX));
        assert(char_range(old(self)@.0, pos as int, usize::MAX as int) == char_range(
            old(self)@.0,
            pos as int,
            old(self)@.0.len() as int,
        ));
        self.set_value(t);
        let p = self.cursor_pos.saturating_add(1);
        self.move_to(p)
    }

    /// Inserts a string at `pos` and moves the cursor right by its width
    pub fn push_string(&mut self, pos: usize, s: &str) -> (r: bool)
        ensures
            r,
            final(self).wf(),
            final(self)@ == ({
                let st = with_text(old(self)@, inserted(old(self)@.0, pos as int, s@));
                moved_to(st, old(self)@.1 + display_width(s@))
            }),
    {
        let w = str_width(s);
        let v = self.value.as_str();
        let _n = v.unicode_len();
        let mut t = String::from_str(char_slice(v, 0, pos));
        t.append(s);
        t.append(char_slice(v, pos, usize::MAX));
        assert(char_range(old(self)@.0, pos as int, usize::MAX as int) == char_range(
            old(self)@.0,
            pos as int,
            old(self)@.0.len() as int,
        ));
        self.set_value(t);
        self.move_right(w)
    }

    /// Deletes the `amount` characters before `pos` and moves the cursor
    /// left by `amount`
    pub fn delete_left(&mut self, pos: usize, amount: usize) -> (r: bool)
        ensures
            r,
            final(self).wf(),
            final(self)@ == ({
                let s = with_text(
                    old(self)@,
                    removed(old(self)@.0, sat_sub(pos as int, amount as int), pos as int),
                );
                moved_to(s, sat_sub(old(self)@.1, amount as int))
            }),
    {
        let v = self.value.as_str();
        let _n = v.unicode_len();
        let mut t = String::from_str(char_slice(v, 0, pos.saturating_sub(amount)));
        t.append(char_slice(v, pos, usize::MAX));
        assert(char_range(old(self)@.0, pos as int, usize::MAX as int) == char_range(
            old(self)@.0,
            pos as int,
            old(self)@.0.len() as int,
        ));
        self.set_value(t);
        self.move_left(amount)
    }

    /// Deletes the `amount` characters after `pos`; the cursor stays
    pub fn delete_right(&mut self, pos: usize, amount: usize) -> (r: bool)
        ensures
            r,
            final(self).wf(),
            final(self)@ == with_text(old(self)@, removed(old(self)@.0, pos as int, pos + amount)),
    {
        let v = self.value.as_str();
        let _n = v.unicode_len();
        let mut t = String::from_str(char_slice(v, 0, pos));
        t.append(char_slice(v, pos.saturating_add(amount), usize::MAX));
        assert(char_range(old(self)@.0, pos.saturating_add(amount) as int, usize::MAX as int)
            == char_range(old(self)@.0, pos + amount, old(self)@.0.len() as int));
        self.set_value(t);
        true
    }

    /// Deletes the word after `pos`
    pub fn delete_next_word(&mut self, pos: usize) -> (r: bool)
        ensures
            r,
            final(self).wf(),
            final(self)@ == ({
                let w = word_over(old(self)@.0, forward(pos as int, old(self)@.2), 0, false);
                let s = with_text(old(self)@, removed(old(self)@.0, pos as int, pos + w));
                moved_to(s, s.1)
            }),
    {
        let w = self.get_next_word_width(pos);
        self.delete_right(pos, w);
        let c = self.cursor_pos;
        self.move_to(c)
    }

    /// Deletes the word before `pos`
    pub fn delete_prev_word(&mut self, pos: usize) -> (r: bool)
        ensures
            r,
            final(self).wf(),
            final(self)@ == ({
                let w = word_over(old(self)@.0, backward(pos as int), 0, false);
                let s = with_text(old(self)@, removed(old(self)@.0, sat_sub(pos as int, w), pos as int));
                moved_to(s, sat_sub(old(self)@.1, w))
            }),
    {
        let w = self.get_prev_word_width(pos);
        self.delete_left(pos, w);
        let c = self.cursor_pos;
        self.move_to(c)
    }

    /// Deletes everything before `pos` and moves the cursor to the start
    pub fn delete_to_start(&mut self, pos: usize) -> (r: bool)
        ensures
            r,
            final(self).wf(),
            final(self)@ == moved_to(
                with_text(old(self)@, char_range(old(self)@.0, pos as int, old(self)@.0.len() as int)),
                0,
            ),
    {
        let v = self.value.as_str();
        let _n = v.unicode_len();
        let t = String::from_str(char_slice(v, pos, usize::MAX));
        assert(char_range(old(self)@.0, pos as int, usize::MAX as int) == char_range(
            old(self)@.0,
            pos as int,
            old(self)@.0.len() as int,
        ));
        self.set_value(t);
        self.move_to(0)
    }

    /// Deletes everything from `pos` on and moves the cursor to the end
    pub fn delete_to_end(&mut self, pos: usize) -> (r: bool)
        ensures
            r,
            final(self).wf(),
            final(self)@ == ({
                let s = with_text(old(self)@, char_range(old(self)@.0, 0, pos as int));
                moved_to(s, s.2)
            }),
    {
        let t = String::from_str(char_slice(self.value.as_str(), 0, pos));
        self.set_value(t);
        let w = self.width;
        self.move_to(w)
    }

    /// Deletes everything
    pub fn clear(&mut self) -> (r: bool)
        ensures
            r,
            final(self).wf(),
            final(self)@ == (Seq::<char>::empty(), 0int, 0int),
    {
        self.set_value(String::new());
        self.cursor_pos = 0;
        true
    }

    /// Moves the cursor past the next word
    pub fn move_next_word(&mut self) -> (r: bool)
        ensures
            r,
            final(self).wf() == old(self).wf(),
            final(self)@ == moved_to(
                old(self)@,
                old(self)@.1 + word_over(old(self)@.0, forward(old(self)@.1, old(self)@.2), 0, false),
            ),
    {
        let w = self.get_next_word_width(self.cursor_pos);
        self.move_right(w)
    }

    /// Moves the cursor before the previous word
    pub fn move_prev_word(&mut self) -> (r: bool)
        ensures
            r,
            final(self).wf() == old(self).wf(),
            final(self)@ == moved_to(
                old(self)@,
                sat_sub(old(self)@.1, word_over(old(self)@.0, backward(old(self)@.1), 0, false)),
            ),
    {
        let w = self.get_prev_word_width(self.cursor_pos);
        self.move_left(w)
    }

    /// Whether the prompt is empty
    pub fn is_empty(&self) -> (r: bool)
        ensures
            r == (self@.0.len() == 0),
    {
        self.value.as_str().unicode_len() == 0
    }

    /// The text
    pub fn value(&self) -> (r: &String)
        ensures
            r@ == self@.0,
    {
        &self.value
    }

    /// The cursor position
    pub fn cursor_pos(&self) -> (r: usize)
        ensures
            r == self@.1,
    {
        self.cursor_pos
    }

    /// Width of the text
    pub fn width(&self) -> (r: usize)
        ensures
            r == self@.2,
    {
        self.width
    }
}

/// The state after an action applied at the cursor.
pub open spec fn acted(s: PromptView, msg: PromptAction) -> PromptView {
    let pos = s.1;
    match msg {
        PromptAction::Char(c) => moved_to(with_text(s, inserted(s.0, pos, seq![c])), s.1 + 1),
        PromptAction::String(t) => moved_to(
            with_text(s, inserted(s.0, pos, t@)),
            s.1 + display_width(t@),
        ),
        PromptAction::DeleteLeft(n) => moved_to(
            with_text(s, removed(s.0, sat_sub(pos, n as int), pos)),
            sat_sub(s.1, n as int),
        ),
        PromptAction::DeleteRight(n) => with_text(s, removed(s.0, pos, pos + n)),
        PromptAction::DeleteNextWord => {
            let w = word_over(s.0, forward(pos, s.2), 0, false);
            let t = with_text(s, removed(s.0, pos, pos + w));
            moved_to(t, t.1)
        },
        PromptAction::DeletePrevWord => {
            let w = word_over(s.0, backward(pos), 0, false);
            let t = with_text(s, removed(s.0, sat_sub(pos, w), pos));
            moved_to(t, sat_sub(s.1, w))
        },
        PromptAction::DeleteToStart => moved_to(
            with_text(s, char_range(s.0, pos, s.0.len() as int)),
            0,
        ),
        PromptAction::DeleteToEnd => {
            let t = with_text(s, char_range(s.0, 0, pos));
            moved_to(t, t.2)
        },
        PromptAction::Clear => (Seq::<char>::empty(), 0int, 0int),
        PromptAction::MoveLeft(n) => moved_to(s, sat_sub(s.1, n as int)),
        PromptAction::MoveRight(n) => moved_to(s, s.1 + n),
        PromptAction::MoveNextWord => moved_to(s, s.1 + word_over(s.0, forward(s.1, s.2), 0, false)),
        PromptAction::MovePrevWord => moved_to(
            s,
            sat_sub(s.1, word_over(s.0, backward(s.1), 0, false)),
        ),
        PromptAction::MoveStart => moved_to(s, 0),
        PromptAction::MoveEnd => moved_to(s, s.2),
        PromptAction::MoveTo(p) => moved_to(s, p as int),
    }
}

/// The action bound to a key, as in a shell's line editor.
pub open spec fn key_binding(key: Key) -> Option<PromptAction> {
    let m = key.0;
    match key.1 {
        KeyCode::Right => if m is Ctrl { Some(PromptAction::MoveNextWord) } else { Some(PromptAction::MoveRight(1)) },
        KeyCode::Left => if m is Ctrl { Some(PromptAction::MovePrevWord) } else { Some(PromptAction::MoveLeft(1)) },
        KeyCode::Home => Some(PromptAction::MoveStart),
        KeyCode::End => Some(PromptAction::MoveEnd),
        KeyCode::Backspace => Some(PromptAction::DeleteLeft(1)),
        KeyCode::Delete => Some(PromptAction::DeleteRight(1)),
        KeyCode::Char(c) => if m is Alt && c == 'f' {
            Some(PromptAction::MoveNextWord)
        } else if m is Alt && c == 'b' {
            Some(PromptAction::MovePrevWord)
        } else if m is Ctrl && c == 'b' {
            Some(PromptAction::MoveLeft(1))
        } else if m is Ctrl && c == 'f' {
            Some(PromptAction::MoveRight(1))
        } else if m is Ctrl && c == 'a' {
            Some(PromptAction::MoveStart)
        } else if m is Ctrl && c == 'e' {
            Some(PromptAction::MoveEnd)
        } else if m is Ctrl && (c == 'w' || c == 'h') {
            Some(PromptAction::DeletePrevWord)
        } else if m is Ctrl && c == 'u' {
            Some(PromptAction::DeleteToStart)
        } else if m is Ctrl && c == 'k' {
            Some(PromptAction::DeleteToEnd)
        } else {
            Some(PromptAction::Char(c))
        },
        _ => None,
    }
}

/// The action that a key is bound to, if any
pub fn key_action(key: Key) -> (r: Option<PromptAction>)
    ensures
        r == key_binding(key),
{
    let m = key.0;
    match key.1 {
        KeyCode::Right => match m {
            KeyMod::Ctrl => Some(PromptAction::MoveNextWord),
            _ => Some(PromptAction::MoveRight(1)),
        },
        KeyCode::Left => match m {
            KeyMod::Ctrl => Some(PromptAction::MovePrevWord),
            _ => Some(PromptAction::MoveLeft(1)),
        },
        KeyCode::Home => Some(PromptAction::MoveStart),
        KeyCode::End => Some(PromptAction::MoveEnd),
        KeyCode::Backspace => Some(PromptAction::DeleteLeft(1)),
        KeyCode::Delete => Some(PromptAction::DeleteRight(1)),
        KeyCode::Char(c) => {
            let alt = match m {
                KeyMod::Alt => true,
                _ => false,
            };
            let ctrl = match m {
                KeyMod::Ctrl => true,
                _ => false,
            };
            if alt && c == 'f' {
                Some(PromptAction::MoveNextWord)
            } else if alt && c == 'b' {
                Some(PromptAction::MovePrevWord)
            } else if ctrl && c == 'b' {
                Some(PromptAction::MoveLeft(1))
            } else if ctrl && c == 'f' {
                Some(PromptAction::MoveRight(1))
            } else if ctrl && c == 'a' {
                Some(PromptAction::MoveStart)
            } else if ctrl && c == 'e' {
                Some(PromptAction::MoveEnd)
            } else if ctrl && (c == 'w' || c == 'h') {
                Some(PromptAction::DeletePrevWord)
            } else if ctrl && c == 'u' {
                Some(PromptAction::DeleteToStart)
            } else if ctrl && c == 'k' {
                Some(PromptAction::DeleteToEnd)
            } else {
                Some(PromptAction::Char(c))
            }
        },
        _ => None,
    }
}

impl PromptState {
    /// Applies an action at the cursor
    pub fn action(&mut self, msg: PromptAction) -> (r: bool)
        requires
            old(self).wf(),
        ensures
            r,
            final(self).wf(),
            final(self)@ == acted(old(self)@, msg),
    {
        let cur = self.cursor_pos;
        match msg {
            PromptAction::Char(c) => self.push_char(cur, c),
            PromptAction::String(s) => self.push_string(cur, s.as_str()),
            PromptAction::DeleteLeft(n) => self.delete_left(cur, n),
            PromptAction::DeleteRight(n) => self.delete_right(cur, n),
            PromptAction::DeleteNextWord => self.delete_next_word(cur),
            PromptAction::DeletePrevWord => self.delete_prev_word(cur),
            PromptAction::DeleteToStart => self.delete_to_start(cur),
            PromptAction::DeleteToEnd => self.delete_to_end(cur),
            PromptAction::Clear => self.clear(),
            PromptAction::MoveLeft(n) => self.move_left(n),
            PromptAction::MoveRight(n) => self.move_right(n),
            PromptAction::MoveNextWord => self.move_next_word(),
            PromptAction::MovePrevWord => self.move_prev_word(),
            PromptAction::MoveStart => self.move_start(),
            PromptAction::MoveEnd => self.move_end(),
            PromptAction::MoveTo(p) => self.move_to(p),
        }
    }

    /// Applies the action bound to a key (shell-style bindings); returns
    /// whether the key is bound
    pub fn handle_keys(&mut self, key: Key) -> (r: bool)
        requires
            old(self).wf(),
        ensures
            final(self).wf(),
            r == key_binding(key) is Some,
            match key_binding(key) {
                Some(a) => final(self)@ == acted(old(self)@, a),
                None => final(self)@ == old(self)@,
            },
    {
        match key_action(key) {
            Some(a) => self.action(a),
            None => false,
        }
    }
}

/// A prompt showing a state, optionally framed by borders
#[derive(Debug, Clone)]
pub struct Prompt<'a> {
    pub state: &'a PromptState,
    pub style: Style,
    pub cursor_style: Style,
    pub focused: bool,
    pub borders: Option<Borders>,
}

impl<'a> Prompt<'a> {
    /// A focused prompt without borders, the cursor shown reversed
    pub fn new(state: &'a PromptState) -> (r: Self)
        ensures
            r.state == state,
            r.style == Style::empty_spec(),
            r.cursor_style == (Style { reverse: Some(true), ..Style::new_spec(Color::Reset, Color::Reset) }),
            r.focused,
            r.borders is None,
    {
        Prompt {
            state,
            style: Style::empty(),
            cursor_style: Style::new(Color::Reset, Color::Reset).reverse(Some(true)),
            focused: true,
            borders: None,
        }
    }

    /// Sets the text style
    pub fn style(self, style: Style) -> (r: Self)
        ensures
            r.state == self.state,
            r.style == style,
            r.cursor_style == self.cursor_style,
            r.focused == self.focused,
            r.borders == self.borders,
    {
        Prompt { style, ..self }
    }

    /// Sets the cursor style
    pub fn cursor_style(self, style: Style) -> (r: Self)
        ensures
            r.state == self.state,
            r.style == self.style,
            r.cursor_style == style,
            r.focused == self.focused,
            r.borders == self.borders,
    {
        Prompt { cursor_style: style, ..self }
    }

    /// Sets whether the cursor is shown
    pub fn focused(self, value: bool) -> (r: Self)
        ensures
            r.state == self.state,
            r.style == self.style,
            r.cursor_style == self.cursor_style,
            r.focused == value,
            r.borders == self.borders,
    {
        Prompt { focused: value, ..self }
    }

    /// Frames the prompt with borders of `kind`
    pub fn border_kind(self, kind: BorderKind) -> (r: Self)
        ensures
            r.state == self.state,
            r.focused == self.focused,
            r.borders matches Some(b) && b.kind == kind && match self.borders {
                Some(old_b) => b.style == old_b.style && b.fill == old_b.fill,
                None => b.style == Style::empty_spec() && b.fill is None,
            },
    {
        let borders = match self.borders {
            Some(b) => b.kind(kind),
            None => Borders::new(kind),
        };
        Prompt { borders: Some(borders), ..self }
    }

    /// Frames the prompt with borders in `style`
    pub fn border_style(self, style: Style) -> (r: Self)
        ensures
            r.state == self.state,
            r.focused == self.focused,
            r.borders matches Some(b) && b.style == style && match self.borders {
                Some(old_b) => b.kind == old_b.kind && b.fill == old_b.fill,
                None => b.kind == BorderKind::Single && b.fill is None,
            },
    {
        let borders = match self.borders {
            Some(b) => b.style(style),
            None => Borders::single().style(style),
        };
        Prompt { borders: Some(borders), ..self }
    }

    /// Frames the prompt with borders whose inside is filled with `cell`
    pub fn fill(self, cell: Cell) -> (r: Self)
        ensures
            r.state == self.state,
            r.focused == self.focused,
            r.borders matches Some(b) && b.fill == Some(cell) && match self.borders {
                Some(old_b) => b.kind == old_b.kind && b.style == old_b.style,
                None => b.kind == BorderKind::Single && b.style == Style::empty_spec(),
            },
    {
        let borders = match self.borders {
            Some(b) => b.fill(cell),
            None => Borders::single().fill(cell),
        };
        Prompt { borders: Some(borders), ..self }
    }
}

/// The row that a prompt's text goes on: inside the borders, if any.
pub open spec fn prompt_row(p: Prompt, rect: Rect) -> Rect {
    match p.borders {
        Some(b) => margined(Rect { height: 3, ..rect }, Margin(1, 1, 1, 1)),
        None => Rect { height: 1, ..rect },
    }
}

/// How many leading graphemes are scrolled out of view: enough to keep the
/// cursor within the first three quarters of the row when focused.
pub open spec fn prompt_scroll(p: Prompt, row: Rect) -> int {
    if p.focused {
        sat_sub(p.state@.1 as u16 as int, sat_sub(row.width as int, row.width as int / 4))
    } else {
        0
    }
}

/// The cells after drawing a prompt: its borders (if any) over three rows,
/// the visible part of its text on the inner row, and, when focused, the
/// cursor's cell in the cursor style.
pub open spec fn prompt_cells(p: Prompt, cells: Seq<CellView>, width: int, height: int, rect: Rect) -> Seq<CellView> {
    let framed = match p.borders {
        Some(b) => border_cells(b, cells, width, height, Rect { height: 3, ..rect }),
        None => cells,
    };
    let row = prompt_row(p, rect);
    let scroll = prompt_scroll(p, row);
    let g = graphemes_of(p.state@.0);
    let written = write_run(
        framed,
        width,
        height,
        (row.x, row.y),
        g.skip(scroll),
        p.style,
        run_len(g.len() as int, scroll, row.width as int, edge_room(width, height, (row.x, row.y))),
    );
    if p.focused {
        let x = sat_add16(row.x as int, sat_sub(p.state@.1 as u16 as int, scroll));
        set_at(written, width, height, (x as u16, row.y), None, p.cursor_style)
    } else {
        written
    }
}

impl<'a> Prompt<'a> {
    /// Draws the prompt into `rect` and returns the rows it used: three with
    /// borders, one without.
    pub fn render(&self, buf: &mut Buffer, rect: Rect) -> (r: Rect)
        requires
            old(buf).wf(),
        ensures
            final(buf).wf(),
            final(buf).width == old(buf).width,
            final(buf).height == old(buf).height,
            r == (Rect { height: if self.borders is Some { 3 } else { 1 }, ..rect }),
            final(buf)@ == prompt_cells(*self, old(buf)@, old(buf).width as int, old(buf).height as int, rect),
    {
        let framed = self.borders.is_some();
        let inner = match &self.borders {
            Some(b) => {
                b.render(buf, rect.with_height(3));
                rect.with_height(3).margin(Margin(1, 1, 1, 1))
            },
            None => rect.with_height(1),
        };
        let cur = self.state.cursor_pos() as u16;
        let scroll = if self.focused {
            cur.saturating_sub(inner.sub_width(inner.width / 4).width)
        } else {
            0
        };
        buf.set_clamped_string((inner.x, inner.y), scroll, self.state.value().as_str(), self.style, inner.width);
        if self.focused {
            let x = inner.x.saturating_add(cur.saturating_sub(scroll));
            buf.set_style((x, inner.y), self.cursor_style);
        }
        if framed {
            rect.with_height(3)
        } else {
            rect.with_height(1)
        }
    }
}

impl<'a> Draw for Prompt<'a> {
    open spec fn ready(&self) -> bool {
        true
    }

    open spec fn drawn(&self, cells: Seq<CellView>, width: int, height: int, rect: Rect) -> Seq<CellView> {
        prompt_cells(*self, cells, width, height, rect)
    }

    open spec fn area(&self, rect: Rect) -> Rect {
        Rect { height: if self.borders is Some { 3 } else { 1 }, ..rect }
    }

    /// Draws the prompt; see `render`.
    fn draw(self, buf: &mut Buffer, rect: Rect) -> (r: Rect) {
        self.render(buf, rect)
    }
}

} // verus!

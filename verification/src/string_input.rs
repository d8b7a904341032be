//! A widget that edits a line of text.
//!
//! [`StringInput`] owns a buffer of Unicode scalar values and a cursor given
//! as a character index. Key events either insert a character (after running
//! it through the widget's [`CharFilter`]), delete a range of characters
//! (one character, a word, or everything to one end of the line), or move
//! the cursor. The whole behaviour is captured by [`spec_step`], a
//! mathematical step function over the abstract state [`BufView`], and
//! `handle_key` is proved to implement it exactly.

use vstd::prelude::*;
use vstd::string::StrSliceExecFns;
use vstd::utf8::encode_utf8;

use crate::backend::Backend;
use crate::chars::{chars_to_string, splice_out, str_to_chars, subvec};
use crate::events::{movement_of, KeyCode, KeyEvent, Movement};
use crate::segment::{
    find_word_left, find_word_right, is_white, lemma_next_word_start_bounds,
    lemma_prev_word_start_bounds, lemma_prev_word_starts_word, next_word_start, nonwhite_starts,
    prev_word_start,
};
use crate::{CharFilter, NoFilter, RenderError};

verus! {

/// The abstract state of a [`StringInput`]: the characters it holds, the
/// cursor as a character index, whether a character was ever accepted, and
/// the two display flags.
#[verifier::ext_equal]
pub struct BufView {
    pub content: Seq<char>,
    pub at: int,
    pub has_value: bool,
    pub mask: Option<char>,
    pub hide_output: bool,
}

impl BufView {
    /// The cursor stays inside the text: `0 <= at <= content.len()`.
    pub open spec fn wf(self) -> bool {
        0 <= self.at <= self.content.len()
    }
}

/// The deletion a key asks for, given the cursor position and the text
/// length, or `None` when the key deletes nothing. Control-U deletes to the
/// start of the line and control-K to its end; alt-Backspace, alt-W delete
/// the previous word and alt-Delete, alt-D the next; plain Backspace and
/// control-W delete the previous character, plain Delete and control-D the
/// next. A deletion of the previous character at the start of the line, or
/// of the next character at its end, is no deletion at all.
pub open spec fn delete_movement(key: KeyEvent, at: int, len: int) -> Option<Movement> {
    let m = key.modifiers;
    match key.code {
        KeyCode::Backspace => if at == 0 {
            None
        } else if m.alt {
            Some(Movement::PrevWord)
        } else {
            Some(Movement::Left)
        },
        KeyCode::Delete => if at == len {
            None
        } else if m.alt {
            Some(Movement::NextWord)
        } else {
            Some(Movement::Right)
        },
        KeyCode::Char(c) => if c == 'u' && m.control {
            Some(Movement::Home)
        } else if c == 'w' && m.alt {
            Some(Movement::PrevWord)
        } else if c == 'w' && m.control {
            if at == 0 {
                None
            } else {
                Some(Movement::Left)
            }
        } else if c == 'k' && m.control {
            Some(Movement::End)
        } else if c == 'd' && m.alt {
            Some(Movement::NextWord)
        } else if c == 'd' && m.control {
            if at == len {
                None
            } else {
                Some(Movement::Right)
            }
        } else {
            None
        },
        _ => None,
    }
}

/// The character a key would insert: a plain character key with neither
/// control nor alt held.
pub open spec fn insert_char_of(key: KeyEvent) -> Option<char> {
    match key.code {
        KeyCode::Char(c) => if !key.modifiers.control && !key.modifiers.alt {
            Some(c)
        } else {
            None
        },
        _ => None,
    }
}

/// The state after a deletion. Leftward deletions (home, previous word,
/// previous character) put the cursor at the start of the removed range;
/// rightward ones (end, next word, next character) leave it in place.
pub open spec fn delete_applied(v: BufView, m: Movement) -> BufView {
    let len = v.content.len() as int;
    match m {
        Movement::Home => BufView { content: v.content.subrange(v.at, len), at: 0, ..v },
        Movement::PrevWord => {
            let w = prev_word_start(v.content, v.at);
            BufView {
                content: v.content.subrange(0, w) + v.content.subrange(v.at, len),
                at: w,
                ..v
            }
        },
        Movement::Left => BufView {
            content: v.content.subrange(0, v.at - 1) + v.content.subrange(v.at, len),
            at: v.at - 1,
            ..v
        },
        Movement::End => BufView { content: v.content.subrange(0, v.at), ..v },
        Movement::NextWord => {
            let nw = next_word_start(v.content, v.at);
            BufView { content: v.content.subrange(0, v.at) + v.content.subrange(nw, len), ..v }
        },
        Movement::Right => BufView {
            content: v.content.subrange(0, v.at) + v.content.subrange(v.at + 1, len),
            ..v
        },
    }
}

/// Where the cursor lands when a movement is applied without editing.
/// Movements that would leave the text are clamped in place.
pub open spec fn moved_cursor(v: BufView, m: Movement) -> int {
    match m {
        Movement::Left => if v.at > 0 {
            v.at - 1
        } else {
            v.at
        },
        Movement::Right => if v.at < v.content.len() {
            v.at + 1
        } else {
            v.at
        },
        Movement::PrevWord => prev_word_start(v.content, v.at),
        Movement::NextWord => next_word_start(v.content, v.at),
        Movement::Home => 0,
        Movement::End => v.content.len() as int,
    }
}

/// One key handled: the state afterwards, and whether the key was consumed.
/// Deletions come first; then insertion through the filter; then pure cursor
/// movements, consumed only when the cursor actually moves; everything else
/// leaves the state alone and is not consumed.
pub open spec fn spec_step<F: CharFilter>(v: BufView, key: KeyEvent, filter: F) -> (BufView, bool) {
    match delete_movement(key, v.at, v.content.len() as int) {
        Some(m) => (delete_applied(v, m), true),
        None => match insert_char_of(key) {
            Some(c) => match filter.filter_spec(c) {
                Some(cc) => (
                    BufView {
                        content: v.content.subrange(0, v.at).push(cc) + v.content.subrange(
                            v.at,
                            v.content.len() as int,
                        ),
                        at: v.at + 1,
                        has_value: true,
                        ..v
                    },
                    true,
                ),
                None => (v, false),
            },
            None => match movement_of(key) {
                Some(m) => (BufView { at: moved_cursor(v, m), ..v }, moved_cursor(v, m) != v.at),
                None => (v, false),
            },
        },
    }
}

/// The state after `set_value`: the given characters, the cursor at the
/// end, and a value counted as present exactly when the string is
/// non-empty.
pub open spec fn spec_set_value(v: BufView, s: Seq<char>) -> BufView {
    BufView {
        content: s,
        at: s.len() as int,
        has_value: s.len() > 0,
        mask: v.mask,
        hide_output: v.hide_output,
    }
}

/// What `finish` yields: the content once any character was accepted, and
/// nothing when none ever was.
pub open spec fn spec_finish(v: BufView) -> Option<Seq<char>> {
    if v.has_value {
        Some(v.content)
    } else {
        None
    }
}

/// The UTF-8 encoding of a single character.
pub open spec fn char_bytes(c: char) -> Seq<u8> {
    encode_utf8(seq![c])
}

/// `n` copies of the byte sequence `b`, concatenated.
pub open spec fn repeated(b: Seq<u8>, n: int) -> Seq<u8>
    decreases n,
{
    if n <= 0 {
        Seq::empty()
    } else {
        repeated(b, n - 1) + b
    }
}

/// What rendering the buffer writes: nothing when output is hidden, one
/// copy of the mask character per content character when a mask is set, and
/// the UTF-8 encoding of the content otherwise.
pub open spec fn rendered_output(v: BufView) -> Seq<u8> {
    if v.hide_output {
        Seq::empty()
    } else {
        match v.mask {
            Some(m) => repeated(char_bytes(m), v.content.len() as int),
            None => encode_utf8(v.content),
        }
    }
}

/// A widget that inputs a line of text.
///
/// The `filter_map_char` filter is consulted in `handle_key` to limit and
/// transform the characters that may be typed.
pub struct StringInput<F = NoFilter> {
    value: Vec<char>,
    /// The character length of the value, kept in step with every mutation.
    value_len: usize,
    /// The position of the cursor, in characters.
    at: usize,
    mask: Option<char>,
    hide_output: bool,
    has_value: bool,
    filter_map_char: F,
}

impl<F> View for StringInput<F> {
    type V = BufView;

    closed spec fn view(&self) -> BufView {
        BufView {
            content: self.value@,
            at: self.at as int,
            has_value: self.has_value,
            mask: self.mask,
            hide_output: self.hide_output,
        }
    }
}

impl<F> StringInput<F> {
    /// The widget's internal consistency: the cursor is inside the text and
    /// the cached length is the true character count.
    pub closed spec fn inv(&self) -> bool {
        &&& self.at <= self.value@.len()
        &&& self.value_len == self.value@.len()
    }

    /// The filter this widget was built with.
    pub closed spec fn filter(&self) -> F {
        self.filter_map_char
    }

    /// A consistent widget has a well-formed abstract state.
    pub proof fn lemma_inv_wf(&self)
        requires
            self.inv(),
        ensures
            self@.wf(),
    {
    }

    /// Creates a new [`StringInput`] with the given character filter.
    pub fn new(filter_map_char: F) -> (r: Self)
        ensures
            r.inv(),
            r@ == (BufView {
                content: Seq::<char>::empty(),
                at: 0,
                has_value: false,
                mask: None,
                hide_output: false,
            }),
            r.filter() == filter_map_char,
    {
        StringInput {
            value: Vec::new(),
            value_len: 0,
            at: 0,
            mask: None,
            hide_output: false,
            has_value: false,
            filter_map_char,
        }
    }

    /// A mask to print when rendering, instead of the actual characters.
    pub fn mask(self, mask: char) -> (r: Self)
        ensures
            r@ == (BufView { mask: Some(mask), ..self@ }),
            r.inv() == self.inv(),
            r.filter() == self.filter(),
    {
        StringInput { mask: Some(mask), ..self }
    }

    /// Render nothing at all, while still keeping track of the characters.
    pub fn hide_output(self) -> (r: Self)
        ensures
            r@ == (BufView { hide_output: true, ..self@ }),
            r.inv() == self.inv(),
            r.filter() == self.filter(),
    {
        StringInput { hide_output: true, ..self }
    }

    /// Sets the mask if one is given, and otherwise hides the output.
    pub fn password(self, mask: Option<char>) -> (r: Self)
        ensures
            r@ == (match mask {
                Some(m) => BufView { mask: Some(m), ..self@ },
                None => BufView { hide_output: true, ..self@ },
            }),
            r.inv() == self.inv(),
            r.filter() == self.filter(),
    {
        match mask {
            Some(m) => self.mask(m),
            None => self.hide_output(),
        }
    }

    /// The currently inputted value.
    pub fn value(&self) -> (r: String)
        ensures
            r@ == self@.content,
    {
        chars_to_string(&self.value)
    }

    /// Replaces the value wholesale, putting the cursor at its end.
    pub fn set_value(&mut self, value: String)
        ensures
            final(self).inv(),
            final(self)@ == spec_set_value(old(self)@, value@),
            final(self).filter() == old(self).filter(),
    {
        let chars = str_to_chars(value.as_str());
        self.value_len = chars.len();
        self.at = chars.len();
        self.has_value = chars.len() > 0;
        self.value = chars;
    }

    /// Whether any character has ever come to the input.
    pub fn has_value(&self) -> (r: bool)
        ensures
            r == self@.has_value,
    {
        self.has_value
    }

    /// Returns `None` when no character was ever inputted, and otherwise the
    /// value — possibly the empty string, when characters were added and
    /// then deleted.
    pub fn finish(self) -> (r: Option<String>)
        ensures
            match r {
                Some(s) => spec_finish(self@) == Some(s@),
                None => spec_finish(self@) is None,
            },
    {
        if self.has_value {
            Some(chars_to_string(&self.value))
        } else {
            None
        }
    }

    /// The widget never takes a row beyond the prompt line.
    pub fn height(&self) -> (r: usize)
        ensures
            r == 0,
    {
        0
    }

    /// The visual cursor: at the end of the prompt when output is hidden,
    /// and otherwise the prompt length plus the cursor's character index,
    /// clamped to what a terminal column can hold. The row is always the
    /// prompt's own.
    pub fn cursor_pos(&self, prompt_len: u16) -> (r: (u16, u16))
        requires
            self.inv(),
        ensures
            r.1 == 0,
            self@.hide_output ==> r.0 == prompt_len,
            !self@.hide_output ==> r.0 as int == if prompt_len + self@.at <= u16::MAX {
                prompt_len + self@.at
            } else {
                u16::MAX as int
            },
    {
        if self.hide_output {
            (prompt_len, 0)
        } else {
            let rem = (u16::MAX - prompt_len) as usize;
            if self.at >= rem {
                (u16::MAX, 0)
            } else {
                (prompt_len + (self.at as u16), 0)
            }
        }
    }
}

impl<F: CharFilter> StringInput<F> {
    /// The deletion the key asks for in the current state, if any.
    fn is_delete_movement(&self, key: KeyEvent) -> (r: Option<Movement>)
        requires
            self.inv(),
        ensures
            r == delete_movement(key, self@.at, self@.content.len() as int),
    {
        let m = key.modifiers;
        match key.code {
            KeyCode::Backspace => if self.at == 0 {
                None
            } else if m.alt {
                Some(Movement::PrevWord)
            } else {
                Some(Movement::Left)
            },
            KeyCode::Delete => if self.at == self.value_len {
                None
            } else if m.alt {
                Some(Movement::NextWord)
            } else {
                Some(Movement::Right)
            },
            KeyCode::Char(c) => if c == 'u' && m.control {
                Some(Movement::Home)
            } else if c == 'w' && m.alt {
                Some(Movement::PrevWord)
            } else if c == 'w' && m.control {
                if self.at == 0 {
                    None
                } else {
                    Some(Movement::Left)
                }
            } else if c == 'k' && m.control {
                Some(Movement::End)
            } else if c == 'd' && m.alt {
                Some(Movement::NextWord)
            } else if c == 'd' && m.control {
                if self.at == self.value_len {
                    None
                } else {
                    Some(Movement::Right)
                }
            } else {
                None
            },
            _ => None,
        }
    }

    /// Handles characters, backspace, delete, the arrow keys, home and end:
    /// exactly the step function [`spec_step`].
    pub fn handle_key(&mut self, key: KeyEvent) -> (consumed: bool)
        requires
            old(self).inv(),
        ensures
            final(self).inv(),
            final(self).filter() == old(self).filter(),
            final(self)@ == spec_step(old(self)@, key, old(self).filter()).0,
            consumed == spec_step(old(self)@, key, old(self).filter()).1,
    {
        let ghost pre = self@;
        match self.is_delete_movement(key) {
            Some(movement) => {
                match movement {
                    Movement::Home => {
                        let new_value = splice_out(&self.value, 0, self.at);
                        self.value_len = self.value_len - self.at;
                        self.at = 0;
                        self.value = new_value;
                        proof {
                            assert(self@ =~= delete_applied(pre, Movement::Home));
                        }
                        true
                    },
                    Movement::PrevWord => {
                        let w = find_word_left(&self.value, self.at);
                        let new_value = splice_out(&self.value, w, self.at);
                        self.value_len = self.value_len - (self.at - w);
                        self.at = w;
                        self.value = new_value;
                        proof {
                            assert(self@ =~= delete_applied(pre, Movement::PrevWord));
                        }
                        true
                    },
                    Movement::Left => {
                        let i = self.at - 1;
                        self.value.remove(i);
                        self.at = i;
                        self.value_len = self.value_len - 1;
                        proof {
                            assert(self@ =~= delete_applied(pre, Movement::Left));
                        }
                        true
                    },
                    Movement::End => {
                        self.value.truncate(self.at);
                        self.value_len = self.at;
                        proof {
                            assert(self@ =~= delete_applied(pre, Movement::End));
                        }
                        true
                    },
                    Movement::NextWord => {
                        let nw = find_word_right(&self.value, self.at);
                        let new_value = splice_out(&self.value, self.at, nw);
                        self.value_len = self.value_len - (nw - self.at);
                        self.value = new_value;
                        proof {
                            assert(self@ =~= delete_applied(pre, Movement::NextWord));
                        }
                        true
                    },
                    Movement::Right => {
                        self.value.remove(self.at);
                        self.value_len = self.value_len - 1;
                        proof {
                            assert(self@ =~= delete_applied(pre, Movement::Right));
                        }
                        true
                    },
                }
            },
            None => {
                if let KeyCode::Char(c) = key.code {
                    if !key.modifiers.control && !key.modifiers.alt {
                        return match self.filter_map_char.filter_char(c) {
                            Some(cc) => {
                                self.value.insert(self.at, cc);
                                let n = self.value.len();
                                self.at = self.at + 1;
                                self.value_len = n;
                                self.has_value = true;
                                proof {
                                    assert(self@.content =~= pre.content.subrange(0, pre.at).push(
                                        cc,
                                    ) + pre.content.subrange(pre.at, pre.content.len() as int));
                                }
                                true
                            },
                            None => false,
                        };
                    }
                }
                match Movement::try_from_key(key) {
                    Some(Movement::PrevWord) => {
                        if self.at != 0 {
                            let w = find_word_left(&self.value, self.at);
                            self.at = w;
                            true
                        } else {
                            proof {
                                lemma_prev_word_start_bounds(pre.content, pre.at);
                            }
                            false
                        }
                    },
                    Some(Movement::Left) => {
                        if self.at != 0 {
                            self.at = self.at - 1;
                            true
                        } else {
                            false
                        }
                    },
                    Some(Movement::NextWord) => {
                        if self.at != self.value_len {
                            let nw = find_word_right(&self.value, self.at);
                            self.at = nw;
                            true
                        } else {
                            proof {
                                lemma_next_word_start_bounds(pre.content, pre.at);
                            }
                            false
                        }
                    },
                    Some(Movement::Right) => {
                        if self.at != self.value_len {
                            self.at = self.at + 1;
                            true
                        } else {
                            false
                        }
                    },
                    Some(Movement::Home) => {
                        if self.at != 0 {
                            self.at = 0;
                            true
                        } else {
                            false
                        }
                    },
                    Some(Movement::End) => {
                        if self.at != self.value_len {
                            self.at = self.value_len;
                            true
                        } else {
                            false
                        }
                    },
                    None => false,
                }
            },
        }
    }

    /// Writes the widget to the backend: nothing when hidden, the mask
    /// character once per content character when masked, and the content
    /// itself otherwise. Fails without writing when the width leaves no
    /// room, or when the content is wider than the width.
    pub fn render<B: Backend>(&mut self, max_width: usize, backend: &mut B) -> (r: Result<
        (),
        RenderError,
    >)
        requires
            old(self).inv(),
        ensures
            *final(self) == *old(self),
            match r {
                Ok(_) => (old(self)@.hide_output || (max_width > 3 && old(self)@.content.len()
                    <= max_width)) && final(backend).written() == old(backend).written()
                    + rendered_output(old(self)@),
                Err(e) => final(backend).written() == old(backend).written() && !old(
                    self,
                )@.hide_output && (e == RenderError::InvalidWidth <==> max_width <= 3) && (e
                    == RenderError::ContentOverflow <==> (max_width > 3 && old(self)@.content.len()
                    > max_width)),
            },
    {
        if self.hide_output {
            proof {
                assert(backend.written() + rendered_output(old(self)@) =~= backend.written());
            }
            return Ok(());
        }
        if max_width <= 3 {
            return Err(RenderError::InvalidWidth);
        }
        if self.value_len > max_width {
            return Err(RenderError::ContentOverflow);
        }
        match self.mask {
            Some(m) => {
                print_mask(self.value_len, m, backend);
            },
            None => {
                let s = chars_to_string(&self.value);
                let bytes = s.as_str().as_bytes_vec();
                backend.write_all(bytes.as_slice());
            },
        }
        Ok(())
    }
}

impl Default for StringInput<NoFilter> {
    /// An empty input that accepts every character.
    fn default() -> (r: Self)
        ensures
            r.inv(),
            r@ == (BufView {
                content: Seq::<char>::empty(),
                at: 0,
                has_value: false,
                mask: None,
                hide_output: false,
            }),
    {
        StringInput::new(NoFilter)
    }
}

/// Cursor-bounds invariant: whatever key arrives, a well-formed state steps
/// to a well-formed state — the cursor stays within the text and the length
/// stays the content's character count.
pub proof fn lemma_step_preserves_wf<F: CharFilter>(v: BufView, key: KeyEvent, filter: F)
    requires
        v.wf(),
    ensures
        spec_step(v, key, filter).0.wf(),
{
    let len = v.content.len() as int;
    match delete_movement(key, v.at, len) {
        Some(m) => match m {
            Movement::PrevWord => lemma_prev_word_start_bounds(v.content, v.at),
            Movement::NextWord => lemma_next_word_start_bounds(v.content, v.at),
            _ => {},
        },
        None => match movement_of(key) {
            Some(m) => match m {
                Movement::PrevWord => lemma_prev_word_start_bounds(v.content, v.at),
                Movement::NextWord => lemma_next_word_start_bounds(v.content, v.at),
                _ => {},
            },
            None => {},
        },
    }
}

/// `has_value` monotonicity: once on, no later key handling turns it back
/// off — deletions included — and an accepted character-producing keystroke
/// turns it on.
pub proof fn lemma_has_value_monotone<F: CharFilter>(v: BufView, key: KeyEvent, filter: F)
    ensures
        v.has_value ==> spec_step(v, key, filter).0.has_value,
        (match insert_char_of(key) {
            Some(c) => delete_movement(key, v.at, v.content.len() as int) is None
                && filter.filter_spec(c) is Some,
            None => false,
        }) ==> spec_step(v, key, filter).0.has_value,
{
}

/// A key that is not consumed leaves the state bit-for-bit unchanged.
pub proof fn lemma_unconsumed_unchanged<F: CharFilter>(v: BufView, key: KeyEvent, filter: F)
    ensures
        !spec_step(v, key, filter).1 ==> spec_step(v, key, filter).0 == v,
{
    match movement_of(key) {
        Some(m) => {
            if moved_cursor(v, m) == v.at {
                assert(BufView { at: moved_cursor(v, m), ..v } =~= v);
            }
        },
        None => {},
    }
}

/// Idempotence of rejected input: a key whose character the filter rejects,
/// or a movement that cannot move the cursor, is not consumed and changes
/// nothing.
pub proof fn lemma_rejected_input_unchanged<F: CharFilter>(v: BufView, key: KeyEvent, filter: F)
    requires
        delete_movement(key, v.at, v.content.len() as int) is None,
        match insert_char_of(key) {
            Some(c) => filter.filter_spec(c) is None,
            None => match movement_of(key) {
                Some(m) => moved_cursor(v, m) == v.at,
                None => true,
            },
        },
    ensures
        spec_step(v, key, filter).1 == false,
        spec_step(v, key, filter).0 == v,
{
    lemma_unconsumed_unchanged(v, key, filter);
}

/// Word-deletion boundary: deleting the previous word removes exactly the
/// characters from the previous word's start to the cursor. When any word
/// stands before the cursor, that start is a non-whitespace character — so
/// whitespace between the cursor and the word is skipped over and removed
/// together with the word — and the cursor lands where the word began.
pub proof fn lemma_word_delete_boundary<F: CharFilter>(v: BufView, key: KeyEvent, filter: F)
    requires
        v.wf(),
        delete_movement(key, v.at, v.content.len() as int) == Some(Movement::PrevWord),
    ensures
        ({
            let w = prev_word_start(v.content, v.at);
            let post = spec_step(v, key, filter).0;
            &&& 0 <= w <= v.at
            &&& post.content == v.content.subrange(0, w) + v.content.subrange(
                v.at,
                v.content.len() as int,
            )
            &&& post.at == w
            &&& nonwhite_starts(v.content.subrange(0, v.at)).len() > 0 ==> !is_white(v.content[w])
        }),
{
    lemma_prev_word_start_bounds(v.content, v.at);
    if nonwhite_starts(v.content.subrange(0, v.at)).len() > 0 {
        lemma_prev_word_starts_word(v.content, v.at);
    }
}

/// Deleting the previous word with the cursor at the start of the line is a
/// no-op: the key is not consumed and nothing changes.
pub proof fn lemma_word_delete_at_start<F: CharFilter>(v: BufView, key: KeyEvent, filter: F)
    requires
        v.at == 0,
        key.code is Backspace,
    ensures
        spec_step(v, key, filter).0 == v,
        spec_step(v, key, filter).1 == false,
{
}

/// Round trip: setting a non-empty value and finishing with no edits in
/// between yields exactly that value.
pub proof fn lemma_set_value_finish_round_trip(v: BufView, s: Seq<char>)
    requires
        s.len() > 0,
    ensures
        spec_finish(spec_set_value(v, s)) == Some(s),
{
}

/// Masked rendering never draws on the real characters: the output is the
/// mask's encoding repeated once per content character.
pub proof fn lemma_masked_rendering(v: BufView, m: char)
    requires
        v.mask == Some(m),
        !v.hide_output,
    ensures
        rendered_output(v) == repeated(char_bytes(m), v.content.len() as int),
        rendered_output(v).len() == v.content.len() * char_bytes(m).len(),
{
    lemma_repeated_len(char_bytes(m), v.content.len() as int);
}

/// Repeating a byte sequence `n` times yields `n` times its length.
pub proof fn lemma_repeated_len(b: Seq<u8>, n: int)
    requires
        n >= 0,
    ensures
        repeated(b, n).len() == n * b.len(),
    decreases n,
{
    let l = b.len() as int;
    if n > 0 {
        lemma_repeated_len(b, n - 1);
        assert(repeated(b, n).len() == repeated(b, n - 1).len() + l);
        assert((n - 1) * l + l == n * l) by (nonlinear_arith);
    } else {
        assert(n * l == 0) by (nonlinear_arith)
            requires
                n == 0,
        ;
    }
}

/// Writes the mask character to the backend `len` times.
pub(crate) fn print_mask<B: Backend>(len: usize, mask: char, b: &mut B)
    ensures
        final(b).written() == old(b).written() + repeated(char_bytes(mask), len as int),
{
    let mut s = String::new();
    s.push(mask);
    proof {
        assert(s@ =~= seq![mask]);
    }
    let mbytes = s.as_str().as_bytes_vec();
    let mut i: usize = 0;
    while i < len
        invariant
            i <= len,
            mbytes@ == char_bytes(mask),
            b.written() == old(b).written() + repeated(char_bytes(mask), i as int),
        decreases len - i,
    {
        b.write_all(mbytes.as_slice());
        i += 1;
    }
}

} // verus!

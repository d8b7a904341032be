//! The interface prompts drive their parts through: a widget can take key
//! events, render itself into a width, and report its height and cursor.
//! Plain strings are widgets too: they render verbatim when they fit and
//! truncated with an ellipsis when they do not.

use vstd::prelude::*;
use vstd::string::StrSliceExecFns;
use vstd::utf8::encode_utf8;

use crate::backend::Backend;
use crate::chars::{chars_to_string, str_to_chars, subvec};
use crate::events::KeyEvent;
use crate::string_input::{rendered_output, spec_step, StringInput};
use crate::{CharFilter, RenderError};

verus! {

/// A renderable object that may consume key events.
pub trait Widget {
    /// When the widget is in a state fit to be used.
    spec fn wf(&self) -> bool;

    /// Handle a key input, returning whether the key was handled.
    fn handle_key(&mut self, key: KeyEvent) -> (consumed: bool)
        requires
            old(self).wf(),
        ensures
            final(self).wf(),
    ;

    /// Render into at most `max_width` columns of the current line.
    fn render<B: Backend>(&mut self, max_width: usize, backend: &mut B) -> (r: Result<(), RenderError>)
        requires
            old(self).wf(),
        ensures
            final(self).wf(),
    ;

    /// The number of terminal rows the widget takes beyond the prompt line.
    fn height(&self) -> usize;

    /// The cursor position to end at, with column zero being the start of
    /// the prompt.
    fn cursor_pos(&self, prompt_len: u16) -> (pos: (u16, u16))
        requires
            self.wf(),
    ;
}

impl<F: CharFilter> Widget for StringInput<F> {
    open spec fn wf(&self) -> bool {
        self.inv()
    }

    fn handle_key(&mut self, key: KeyEvent) -> (consumed: bool)
        ensures
            final(self).filter() == old(self).filter(),
            final(self)@ == spec_step(old(self)@, key, old(self).filter()).0,
            consumed == spec_step(old(self)@, key, old(self).filter()).1,
    {
        StringInput::handle_key(self, key)
    }

    fn render<B: Backend>(&mut self, max_width: usize, backend: &mut B) -> (r: Result<
        (),
        RenderError,
    >)
        ensures
            *final(self) == *old(self),
            match r {
                Ok(_) => (old(self)@.hide_output || (max_width > 3 && old(self)@.content.len()
                    <= max_width)) && final(backend).written() == old(backend).written()
                    + rendered_output(old(self)@),
                Err(e) => final(backend).written() == old(backend).written() && !old(
                    self,
                )@.hide_output && (e == RenderError::InvalidWidth <==> max_width <= 3) && (e
                    == RenderError::ContentOverflow <==> (max_width > 3 && old(self)@.content.len()
                    > max_width)),
            },
    {
        StringInput::render(self, max_width, backend)
    }

    fn height(&self) -> (r: usize)
        ensures
            r == 0,
    {
        StringInput::height(self)
    }

    fn cursor_pos(&self, prompt_len: u16) -> (pos: (u16, u16))
        ensures
            pos.1 == 0,
            self@.hide_output ==> pos.0 == prompt_len,
            !self@.hide_output ==> pos.0 as int == if prompt_len + self@.at <= u16::MAX {
                prompt_len + self@.at
            } else {
                u16::MAX as int
            },
    {
        StringInput::cursor_pos(self, prompt_len)
    }
}

/// What a plain string writes when rendered into `max_width` columns: its
/// own encoding when it fits, and otherwise its first `max_width - 3`
/// characters followed by a literal ellipsis.
pub open spec fn text_rendered(s: Seq<char>, max_width: int) -> Seq<u8> {
    if s.len() <= max_width {
        encode_utf8(s)
    } else {
        encode_utf8(s.subrange(0, max_width - 3)) + encode_utf8("..."@)
    }
}

/// Renders a plain string into at most `max_width` columns: verbatim when
/// it fits, truncated with a trailing `"..."` when it does not, and failing
/// without output when the width leaves no room for even that.
pub fn render_text<B: Backend>(s: &str, max_width: usize, backend: &mut B) -> (r: Result<
    (),
    RenderError,
>)
    ensures
        match r {
            Ok(_) => max_width > 3 && final(backend).written() == old(backend).written()
                + text_rendered(s@, max_width as int),
            Err(e) => final(backend).written() == old(backend).written() && e
                == RenderError::InvalidWidth && max_width <= 3,
        },
{
    if max_width <= 3 {
        return Err(RenderError::InvalidWidth);
    }
    let chars = str_to_chars(s);
    if chars.len() > max_width {
        let head = subvec(&chars, 0, max_width - 3);
        let hs = chars_to_string(&head);
        let head_bytes = hs.as_str().as_bytes_vec();
        backend.write_all(head_bytes.as_slice());
        let dot_bytes = "...".as_bytes();
        backend.write_all(dot_bytes);
        proof {
            assert(backend.written() =~= old(backend).written() + text_rendered(
                s@,
                max_width as int,
            ));
        }
        Ok(())
    } else {
        let bytes = chars_to_string(&chars).as_str().as_bytes_vec();
        backend.write_all(bytes.as_slice());
        Ok(())
    }
}

impl Widget for String {
    open spec fn wf(&self) -> bool {
        true
    }

    /// A static string consumes no keys and never changes.
    fn handle_key(&mut self, key: KeyEvent) -> (consumed: bool)
        ensures
            !consumed,
            *final(self) == *old(self),
    {
        false
    }

    fn render<B: Backend>(&mut self, max_width: usize, backend: &mut B) -> (r: Result<
        (),
        RenderError,
    >)
        ensures
            *final(self) == *old(self),
            match r {
                Ok(_) => max_width > 3 && final(backend).written() == old(backend).written()
                    + text_rendered(old(self)@, max_width as int),
                Err(e) => final(backend).written() == old(backend).written() && e
                    == RenderError::InvalidWidth && max_width <= 3,
            },
    {
        render_text(self.as_str(), max_width, backend)
    }

    /// A string label never takes a row beyond the prompt line.
    fn height(&self) -> (r: usize)
        ensures
            r == 0,
    {
        0
    }

    /// The default cursor position: the end of the prompt, on its row.
    fn cursor_pos(&self, prompt_len: u16) -> (pos: (u16, u16))
        ensures
            pos.0 == prompt_len,
            pos.1 == 0,
    {
        (prompt_len, 0)
    }
}

} // verus!

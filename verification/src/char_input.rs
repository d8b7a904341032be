//! A widget that inputs a single character.
//!
//! A filter can limit and transform the characters allowed. When several
//! characters are received, each overwrites the previous one; Backspace and
//! Delete clear the value.

use vstd::prelude::*;
use vstd::string::StrSliceExecFns;

use crate::backend::Backend;
use crate::events::{KeyCode, KeyEvent};
use crate::layout::Layout;
use crate::string_input::char_bytes;
use crate::{CharFilter, NoFilter, RenderError};

verus! {

/// One key handled by a [`CharInput`]: the value afterwards and whether the
/// key was consumed. A character key runs through the filter and, when
/// accepted, replaces the value; Backspace and Delete clear a present
/// value; everything else is ignored.
pub open spec fn char_spec_step<F: CharFilter>(v: Option<char>, key: KeyEvent, filter: F) -> (
    Option<char>,
    bool,
) {
    match key.code {
        KeyCode::Char(c) => match filter.filter_spec(c) {
            Some(cc) => (Some(cc), true),
            None => (v, false),
        },
        KeyCode::Backspace => if v is Some {
            (None, true)
        } else {
            (v, false)
        },
        KeyCode::Delete => if v is Some {
            (None, true)
        } else {
            (v, false)
        },
        _ => (v, false),
    }
}

/// A widget that inputs a single character through a [`CharFilter`].
#[derive(Clone, Copy, Debug)]
pub struct CharInput<F = NoFilter> {
    value: Option<char>,
    filter_map: F,
}

impl<F> View for CharInput<F> {
    type V = Option<char>;

    closed spec fn view(&self) -> Option<char> {
        self.value
    }
}

impl CharInput<NoFilter> {
    /// Creates a new [`CharInput`] which accepts all characters.
    pub fn new() -> (r: Self)
        ensures
            r@ == None::<char>,
    {
        CharInput::with_filter_map(NoFilter)
    }
}

impl<F> CharInput<F> {
    /// The filter this widget was built with.
    pub closed spec fn filter(&self) -> F {
        self.filter_map
    }

    /// Creates a new [`CharInput`] which only accepts characters the
    /// `filter_map` lets through.
    pub fn with_filter_map(filter_map: F) -> (r: Self)
        ensures
            r@ == None::<char>,
            r.filter() == filter_map,
    {
        CharInput { value: None, filter_map }
    }

    /// The last inputted character, if any.
    pub fn value(&self) -> (r: Option<char>)
        ensures
            r == self@,
    {
        self.value
    }

    /// Sets the value to the given character.
    pub fn set_value(&mut self, value: char)
        ensures
            final(self)@ == Some(value),
            final(self).filter() == old(self).filter(),
    {
        self.value = Some(value);
    }

    /// Clears the value.
    pub fn clear_value(&mut self)
        ensures
            final(self)@ == None::<char>,
            final(self).filter() == old(self).filter(),
    {
        self.value = None;
    }

    /// Writes the character after the prompt, if one is present, and moves
    /// the line offset past it.
    pub fn render<B: Backend>(&mut self, layout: &mut Layout, backend: &mut B) -> (r: Result<
        (),
        RenderError,
    >)
        requires
            old(self)@ is Some ==> old(layout).line_offset < u16::MAX,
        ensures
            r is Ok,
            *final(self) == *old(self),
            match old(self)@ {
                Some(c) => final(backend).written() == old(backend).written() + char_bytes(c)
                    && *final(layout) == (Layout {
                    line_offset: (old(layout).line_offset + 1) as u16,
                    ..*old(layout)
                }),
                None => final(backend).written() == old(backend).written() && *final(layout)
                    == *old(layout),
            },
    {
        match self.value {
            Some(c) => {
                layout.line_offset = layout.line_offset + 1;
                let mut s = String::new();
                s.push(c);
                proof {
                    assert(s@ =~= seq![c]);
                }
                let bytes = s.as_str().as_bytes_vec();
                backend.write_all(bytes.as_slice());
                Ok(())
            },
            None => Ok(()),
        }
    }

    /// The widget always takes one row; a present character advances the
    /// line offset by one column.
    pub fn height(&mut self, layout: &mut Layout) -> (r: u16)
        requires
            old(self)@ is Some ==> old(layout).line_offset < u16::MAX,
        ensures
            r == 1,
            *final(self) == *old(self),
            *final(layout) == (Layout {
                line_offset: (old(layout).line_offset + (if old(self)@ is Some {
                    1int
                } else {
                    0int
                })) as u16,
                ..*old(layout)
            }),
    {
        if self.value.is_some() {
            layout.line_offset = layout.line_offset + 1;
        }
        1
    }

    /// The position right after the character, if any.
    pub fn cursor_pos(&mut self, layout: Layout) -> (r: (u16, u16))
        requires
            self@ is Some ==> layout.line_offset < u16::MAX,
        ensures
            r.1 == 0,
            *final(self) == *old(self),
            r.0 as int == layout.line_offset + (if old(self)@ is Some {
                1int
            } else {
                0int
            }),
    {
        if self.value.is_some() {
            (layout.line_offset + 1, 0)
        } else {
            (layout.line_offset, 0)
        }
    }
}

impl<F: CharFilter> CharInput<F> {
    /// Handles a key: exactly the step function [`char_spec_step`].
    pub fn handle_key(&mut self, key: KeyEvent) -> (consumed: bool)
        ensures
            final(self).filter() == old(self).filter(),
            final(self)@ == char_spec_step(old(self)@, key, old(self).filter()).0,
            consumed == char_spec_step(old(self)@, key, old(self).filter()).1,
    {
        match key.code {
            KeyCode::Char(c) => {
                match self.filter_map.filter_char(c) {
                    Some(cc) => {
                        self.value = Some(cc);
                        true
                    },
                    None => false,
                }
            },
            KeyCode::Backspace | KeyCode::Delete => {
                if self.value.is_some() {
                    self.value = None;
                    true
                } else {
                    false
                }
            },
            _ => false,
        }
    }
}

impl Default for CharInput<NoFilter> {
    /// An input that accepts all characters and holds none yet.
    fn default() -> (r: Self)
        ensures
            r@ == None::<char>,
    {
        CharInput::new()
    }
}

} // verus!

//! Terminal prompt widgets with verified editing logic.
//!
//! The heart of the crate is [`StringInput`], a line editor that keeps a
//! Unicode-aware character buffer and a character-indexed cursor in sync
//! while handling key events: character insertion through a configurable
//! filter, character and word deletion, and cursor movement. [`CharInput`]
//! is its single-character counterpart. Widgets render through the
//! [`backend::Backend`] abstraction and are composed into prompts by the
//! question layer in [`question`].

use vstd::prelude::*;

pub mod backend;
pub mod char_input;
pub mod events;
pub mod layout;
pub mod question;
pub mod segment;
pub mod string_input;
pub mod widget;

mod chars;

pub use char_input::CharInput;
pub use string_input::StringInput;
pub use widget::Widget;

verus! {

/// Returned by a prompt's validation step.
pub enum Validation {
    /// The prompt is ready to finish.
    Finish,
    /// The state is valid, but the prompt should still persist.
    Continue,
}

/// Rendering failures of a widget.
///
/// Failures of the sink itself are not part of this taxonomy: a widget writes
/// through [`backend::Backend`], whose byte sink does not fail.
#[derive(Clone, Copy, Debug, PartialEq, Eq, Structural)]
pub enum RenderError {
    /// The available width leaves no room to render even a truncated value.
    InvalidWidth,
    /// The content is wider than the available width.
    ContentOverflow,
}

/// Character filter that lets every character through.
pub fn no_filter(c: char) -> (r: Option<char>)
    ensures
        r == Some(c),
{
    Some(c)
}

/// Decides whether a typed character is accepted, and optionally transforms
/// it, before the character is inserted into an input widget.
///
/// The filter is a pure function of the character: `filter_spec` is its
/// mathematical description, and `filter_char` must return exactly that.
pub trait CharFilter {
    /// What the filter answers for each character.
    spec fn filter_spec(&self, c: char) -> Option<char>;

    /// Apply the filter to one character.
    fn filter_char(&self, c: char) -> (r: Option<char>)
        ensures
            r == self.filter_spec(c),
    ;
}

/// The default filter: accepts every character unchanged.
pub struct NoFilter;

impl CharFilter for NoFilter {
    open spec fn filter_spec(&self, c: char) -> Option<char> {
        Some(c)
    }

    fn filter_char(&self, c: char) -> (r: Option<char>) {
        no_filter(c)
    }
}

} // verus!

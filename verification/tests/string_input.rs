use inquisition::backend::TestBackend;
use inquisition::events::{KeyCode, KeyEvent, KeyModifiers};
use inquisition::layout::Size;
use inquisition::string_input::StringInput;
use inquisition::{CharFilter, NoFilter, RenderError};

struct RejectUppercase;

impl CharFilter for RejectUppercase {
    fn filter_spec(&self, c: char) -> Option<char> {
        if c.is_uppercase() {
            None
        } else {
            Some(c)
        }
    }

    fn filter_char(&self, c: char) -> Option<char> {
        if c.is_uppercase() {
            None
        } else {
            Some(c)
        }
    }
}

fn plain(code: KeyCode) -> KeyEvent {
    KeyEvent::new(code, KeyModifiers::empty())
}

fn typed(c: char) -> KeyEvent {
    plain(KeyCode::Char(c))
}

fn with_alt(code: KeyCode) -> KeyEvent {
    KeyEvent::new(code, KeyModifiers::alt())
}

fn ctrl_char(c: char) -> KeyEvent {
    KeyEvent::new(KeyCode::Char(c), KeyModifiers::control())
}

fn backend() -> TestBackend {
    TestBackend::new(Size::new(80, 24))
}

fn filled(s: &str) -> StringInput {
    let mut input = StringInput::new(NoFilter);
    input.set_value(s.to_string());
    input
}

#[test]
fn type_char_then_backspace() {
    let mut input = StringInput::new(NoFilter);
    assert!(input.handle_key(typed('c')));
    assert_eq!(input.value(), "c");
    assert_eq!(input.cursor_pos(0), (1, 0));
    assert!(input.handle_key(plain(KeyCode::Backspace)));
    assert_eq!(input.value(), "");
    assert!(input.has_value());
    assert_eq!(input.finish(), Some(String::new()));
}

#[test]
fn delete_previous_word_skips_trailing_whitespace() {
    let mut input = filled("hello world");
    assert_eq!(input.cursor_pos(0), (11, 0));
    assert!(input.handle_key(with_alt(KeyCode::Backspace)));
    assert_eq!(input.value(), "hello ");
    assert_eq!(input.cursor_pos(0), (6, 0));

    let mut input = filled("hello  world   ");
    assert!(input.handle_key(with_alt(KeyCode::Backspace)));
    assert_eq!(input.value(), "hello  ");
    assert_eq!(input.cursor_pos(0), (7, 0));
}

#[test]
fn delete_previous_word_at_start_is_noop() {
    let mut input = filled("hello");
    for _ in 0..5 {
        assert!(input.handle_key(plain(KeyCode::Left)));
    }
    assert_eq!(input.cursor_pos(0), (0, 0));
    assert!(!input.handle_key(with_alt(KeyCode::Backspace)));
    assert_eq!(input.value(), "hello");
    assert_eq!(input.cursor_pos(0), (0, 0));
}

#[test]
fn filter_rejects_uppercase() {
    let mut input = StringInput::new(RejectUppercase);
    assert!(!input.handle_key(typed('C')));
    assert_eq!(input.value(), "");
    assert!(!input.has_value());
    assert_eq!(input.finish(), None);
}

#[test]
fn untouched_finish_is_none() {
    let input: StringInput = StringInput::default();
    assert!(!input.has_value());
    assert_eq!(input.finish(), None);
}

#[test]
fn set_value_then_finish_round_trips() {
    let mut input = StringInput::new(NoFilter);
    input.set_value("a value".to_string());
    assert_eq!(input.finish(), Some("a value".to_string()));

    let mut input = StringInput::new(NoFilter);
    input.set_value("héllo wörld".to_string());
    assert_eq!(input.finish(), Some("héllo wörld".to_string()));
}

#[test]
fn render_width_three_is_config_error() {
    let mut sink = backend();
    let mut input = StringInput::new(NoFilter);
    assert_eq!(input.render(3, &mut sink), Err(RenderError::InvalidWidth));

    let mut input = filled("content");
    assert_eq!(input.render(3, &mut sink), Err(RenderError::InvalidWidth));
    assert_eq!(input.render(0, &mut sink), Err(RenderError::InvalidWidth));

    let mut input = filled("secret").mask('*');
    assert_eq!(input.render(2, &mut sink), Err(RenderError::InvalidWidth));
    assert!(sink.bytes().is_empty());
}

#[test]
fn render_overflowing_content_is_error() {
    let mut sink = backend();
    let mut input = filled("twelve chars");
    assert_eq!(input.render(11, &mut sink), Err(RenderError::ContentOverflow));
    assert!(sink.bytes().is_empty());
    assert_eq!(input.render(12, &mut sink), Ok(()));
    assert_eq!(sink.bytes().as_slice(), b"twelve chars");
}

#[test]
fn masked_render_writes_mask_per_char() {
    let mut sink = backend();
    let mut input = filled("secret").mask('*');
    input.render(40, &mut sink).unwrap();
    assert_eq!(sink.bytes().as_slice(), b"******");

    let mut sink = backend();
    let mut input = filled("ab").mask('·');
    input.render(40, &mut sink).unwrap();
    let expected: Vec<u8> = "··".bytes().collect();
    assert_eq!(sink.bytes().as_slice(), expected.as_slice());

    let mut sink = backend();
    let mut input = filled("héllo").mask('*');
    input.render(40, &mut sink).unwrap();
    assert_eq!(sink.bytes().as_slice(), b"*****");
}

#[test]
fn hidden_render_writes_nothing() {
    let mut sink = backend();
    let mut input = filled("secret").hide_output();
    input.render(40, &mut sink).unwrap();
    assert!(sink.bytes().is_empty());
    assert_eq!(input.cursor_pos(7), (7, 0));
}

#[test]
fn password_picks_mask_or_hidden() {
    let mut sink = backend();
    let mut masked = filled("pw").password(Some('#'));
    masked.render(40, &mut sink).unwrap();
    assert_eq!(sink.bytes().as_slice(), b"##");

    let mut sink = backend();
    let mut hidden = filled("pw").password(None);
    hidden.render(40, &mut sink).unwrap();
    assert!(sink.bytes().is_empty());
}

#[test]
fn plain_render_writes_content() {
    let mut sink = backend();
    let mut input = filled("héllo");
    input.render(40, &mut sink).unwrap();
    let expected: Vec<u8> = "héllo".bytes().collect();
    assert_eq!(sink.bytes().as_slice(), expected.as_slice());
}

#[test]
fn movement_keys_move_cursor() {
    let mut input = filled("one two");
    assert_eq!(input.cursor_pos(0), (7, 0));
    assert!(input.handle_key(plain(KeyCode::Home)));
    assert_eq!(input.cursor_pos(0), (0, 0));
    assert!(!input.handle_key(plain(KeyCode::Home)));
    assert!(input.handle_key(plain(KeyCode::Right)));
    assert_eq!(input.cursor_pos(0), (1, 0));
    assert!(input.handle_key(plain(KeyCode::Left)));
    assert_eq!(input.cursor_pos(0), (0, 0));
    assert!(!input.handle_key(plain(KeyCode::Left)));
    assert!(input.handle_key(plain(KeyCode::End)));
    assert_eq!(input.cursor_pos(0), (7, 0));
    assert!(!input.handle_key(plain(KeyCode::End)));
    assert!(!input.handle_key(plain(KeyCode::Right)));
}

#[test]
fn word_movement_jumps_between_words() {
    let mut input = filled("one two three");
    assert!(input.handle_key(with_alt(KeyCode::Left)));
    assert_eq!(input.cursor_pos(0), (8, 0));
    assert!(input.handle_key(with_alt(KeyCode::Left)));
    assert_eq!(input.cursor_pos(0), (4, 0));
    assert!(input.handle_key(with_alt(KeyCode::Left)));
    assert_eq!(input.cursor_pos(0), (0, 0));
    assert!(!input.handle_key(with_alt(KeyCode::Left)));
    assert!(input.handle_key(with_alt(KeyCode::Right)));
    assert_eq!(input.cursor_pos(0), (4, 0));
    assert!(input.handle_key(with_alt(KeyCode::Right)));
    assert_eq!(input.cursor_pos(0), (8, 0));
    assert!(input.handle_key(with_alt(KeyCode::Right)));
    assert_eq!(input.cursor_pos(0), (13, 0));
    assert!(!input.handle_key(with_alt(KeyCode::Right)));
}

#[test]
fn emacs_style_deletions() {
    // control-U deletes to the start of the line.
    let mut input = filled("abc def");
    assert!(input.handle_key(plain(KeyCode::Left)));
    assert!(input.handle_key(ctrl_char('u')));
    assert_eq!(input.value(), "f");
    assert_eq!(input.cursor_pos(0), (0, 0));

    // control-K deletes to the end of the line.
    let mut input = filled("abc def");
    assert!(input.handle_key(plain(KeyCode::Home)));
    assert!(input.handle_key(plain(KeyCode::Right)));
    assert!(input.handle_key(ctrl_char('k')));
    assert_eq!(input.value(), "a");
    assert_eq!(input.cursor_pos(0), (1, 0));

    // control-W deletes the previous character.
    let mut input = filled("ab");
    assert!(input.handle_key(ctrl_char('w')));
    assert_eq!(input.value(), "a");

    // control-D deletes the next character.
    let mut input = filled("ab");
    assert!(input.handle_key(plain(KeyCode::Home)));
    assert!(input.handle_key(ctrl_char('d')));
    assert_eq!(input.value(), "b");

    // alt-D deletes up to the next word.
    let mut input = filled("one two three");
    assert!(input.handle_key(plain(KeyCode::Home)));
    assert!(input.handle_key(with_alt(KeyCode::Char('d'))));
    assert_eq!(input.value(), "two three");
    assert_eq!(input.cursor_pos(0), (0, 0));

    // alt-W deletes the previous word.
    let mut input = filled("one two");
    assert!(input.handle_key(with_alt(KeyCode::Char('w'))));
    assert_eq!(input.value(), "one ");
}

#[test]
fn plain_emacs_letters_insert_normally() {
    let mut input = StringInput::new(NoFilter);
    for c in ['u', 'w', 'k', 'd'] {
        assert!(input.handle_key(typed(c)));
    }
    assert_eq!(input.value(), "uwkd");
}

#[test]
fn boundary_deletions_are_noops() {
    let mut input = filled("ab");
    assert!(input.handle_key(plain(KeyCode::Home)));
    assert!(!input.handle_key(plain(KeyCode::Backspace)));
    assert!(!input.handle_key(ctrl_char('w')));
    assert_eq!(input.value(), "ab");
    assert!(input.handle_key(plain(KeyCode::End)));
    assert!(!input.handle_key(plain(KeyCode::Delete)));
    assert!(!input.handle_key(ctrl_char('d')));
    assert_eq!(input.value(), "ab");
}

#[test]
fn insert_in_the_middle() {
    let mut input = filled("héllo");
    assert!(input.handle_key(plain(KeyCode::Left)));
    assert!(input.handle_key(plain(KeyCode::Left)));
    assert!(input.handle_key(typed('x')));
    assert_eq!(input.value(), "hélxlo");
    assert_eq!(input.cursor_pos(0), (4, 0));
}

#[test]
fn delete_in_the_middle_of_unicode() {
    let mut input = filled("aéb");
    assert!(input.handle_key(plain(KeyCode::Left)));
    assert!(input.handle_key(plain(KeyCode::Backspace)));
    assert_eq!(input.value(), "ab");
    assert_eq!(input.cursor_pos(0), (1, 0));
}

#[test]
fn has_value_stays_after_deleting_everything() {
    let mut input = StringInput::new(NoFilter);
    assert!(input.handle_key(typed('a')));
    assert!(input.handle_key(typed('b')));
    assert!(input.handle_key(plain(KeyCode::Backspace)));
    assert!(input.handle_key(plain(KeyCode::Backspace)));
    assert!(input.has_value());
    assert_eq!(input.value(), "");
    assert_eq!(input.finish(), Some(String::new()));
}

#[test]
fn modified_chars_are_not_inserted() {
    let mut input = filled("ab");
    assert!(!input.handle_key(ctrl_char('x')));
    assert_eq!(input.value(), "ab");
    assert!(!input.handle_key(KeyEvent::new(KeyCode::Char('x'), KeyModifiers::alt())));
    assert_eq!(input.value(), "ab");
    assert!(input.handle_key(KeyEvent::new(KeyCode::Char('X'), KeyModifiers::shift())));
    assert_eq!(input.value(), "abX");
}

#[test]
fn height_is_zero() {
    let input = filled("anything");
    assert_eq!(input.height(), 0);
}

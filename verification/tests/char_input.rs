use inquisition::backend::TestBackend;
use inquisition::char_input::CharInput;
use inquisition::events::{KeyCode, KeyEvent, KeyModifiers};
use inquisition::layout::Layout;
use inquisition::CharFilter;

struct RejectUppercase;

impl CharFilter for RejectUppercase {
    fn filter_spec(&self, c: char) -> Option<char> {
        if c.is_uppercase() {
            None
        } else {
            Some(c)
        }
    }

    fn filter_char(&self, c: char) -> Option<char> {
        if c.is_uppercase() {
            None
        } else {
            Some(c)
        }
    }
}

#[test]
fn test_cursor_pos() {
    let layout = Layout::new(0, (100, 20).into());
    let mut input = CharInput::default();

    assert_eq!(input.cursor_pos(layout), (0, 0));
    assert_eq!(input.cursor_pos(layout.with_line_offset(5)), (5, 0));

    input.set_value('c');

    assert_eq!(input.cursor_pos(layout), (1, 0));
    assert_eq!(input.cursor_pos(layout.with_line_offset(5)), (6, 0));
}

#[test]
fn test_handle_key() {
    let modifiers = KeyModifiers::empty();

    let mut input = CharInput::default();
    assert!(input.handle_key(KeyEvent::new(KeyCode::Char('c'), modifiers)));
    assert_eq!(input.value(), Some('c'));
    assert!(!input.handle_key(KeyEvent::new(KeyCode::Tab, modifiers)));
    assert!(input.handle_key(KeyEvent::new(KeyCode::Char('d'), modifiers)));
    assert_eq!(input.value(), Some('d'));
    assert!(input.handle_key(KeyEvent::new(KeyCode::Backspace, modifiers)));
    assert_eq!(input.value(), None);
    assert!(input.handle_key(KeyEvent::new(KeyCode::Char('c'), modifiers)));
    assert_eq!(input.value(), Some('c'));
    assert!(input.handle_key(KeyEvent::new(KeyCode::Delete, modifiers)));
    assert_eq!(input.value(), None);
    assert!(!input.handle_key(KeyEvent::new(KeyCode::Delete, modifiers)));
    assert!(!input.handle_key(KeyEvent::new(KeyCode::Backspace, modifiers)));

    let mut input = CharInput::with_filter_map(RejectUppercase);
    assert!(!input.handle_key(KeyEvent::new(KeyCode::Char('C'), modifiers)));
    assert_eq!(input.value(), None);
    assert!(input.handle_key(KeyEvent::new(KeyCode::Char('c'), modifiers)));
    assert_eq!(input.value(), Some('c'));
    assert!(!input.handle_key(KeyEvent::new(KeyCode::Char('C'), modifiers)));
    assert_eq!(input.value(), Some('c'));
}

#[test]
fn test_render() {
    let size = (30, 10).into();
    let mut layout = Layout::new(0, size);
    let mut input = CharInput::default();

    let mut backend = TestBackend::new(size);
    input.render(&mut layout, &mut backend).unwrap();
    assert_eq!(backend, TestBackend::new(size));

    assert_eq!(layout, Layout::new(0, size));

    input.set_value('c');

    let mut backend = TestBackend::new(size);
    input.render(&mut layout, &mut backend).unwrap();

    assert_eq!(backend.bytes().as_slice(), b"c");

    assert_eq!(layout, Layout::new(0, size).with_line_offset(1));
}

use inquisition::backend::{Backend, Color, TestBackend};
use inquisition::events::{KeyCode, KeyEvent, KeyModifiers, Movement};
use inquisition::layout::Size;
use inquisition::question::{input_validation, remove_brackets, Question, QuestionKind};
use inquisition::{no_filter, RenderError, Validation, Widget};

#[test]
fn input_builder_collects_options() {
    let q = Question::input("name".to_string())
        .message("What is your name?".to_string())
        .default("John Doe".to_string())
        .ask_if_answered(true)
        .when(true)
        .build();
    assert_eq!(q.opts.name, "name");
    assert_eq!(q.opts.message.as_deref(), Some("What is your name?"));
    assert!(q.opts.ask_if_answered);
    assert!(q.opts.when);
    match q.kind {
        QuestionKind::Input(i) => assert_eq!(i.default.as_deref(), Some("John Doe")),
        _ => panic!("expected an input question"),
    }
}

#[test]
fn password_builder_sets_mask() {
    let q = Question::password("password".to_string()).mask('*').build();
    assert_eq!(q.opts.name, "password");
    match q.kind {
        QuestionKind::Password(p) => assert_eq!(p.mask, Some('*')),
        _ => panic!("expected a password question"),
    }
}

#[test]
fn confirm_and_integer_builders_keep_defaults() {
    let q = Question::confirm("anonymous".to_string()).default(true).build();
    match q.kind {
        QuestionKind::Confirm(c) => assert_eq!(c.default, Some(true)),
        _ => panic!("expected a confirm question"),
    }

    let q = Question::integer("age".to_string()).default(10).build();
    match q.kind {
        QuestionKind::Int(i) => assert_eq!(i.default, Some(10)),
        _ => panic!("expected an integer question"),
    }

    let q = Question::float("number".to_string()).message("A number?".to_string()).build();
    assert_eq!(q.opts.message.as_deref(), Some("A number?"));
    assert!(matches!(q.kind, QuestionKind::Float(_)));
}

#[test]
fn list_builders_collect_choices() {
    let q = Question::select("theme".to_string())
        .choice("Order a pizza".to_string())
        .choice("Make a reservation".to_string())
        .build();
    match q.kind {
        QuestionKind::Select(s) => {
            assert_eq!(s.choices, vec!["Order a pizza", "Make a reservation"])
        },
        _ => panic!("expected a select question"),
    }

    let q = Question::raw_select("r".to_string()).choice("one".to_string()).build();
    match q.kind {
        QuestionKind::RawSelect(s) => assert_eq!(s.choices, vec!["one"]),
        _ => panic!("expected a raw-select question"),
    }

    let q = Question::order_select("tasks".to_string())
        .choice("Make the bed".to_string())
        .choice("Mow the lawn".to_string())
        .build();
    match q.kind {
        QuestionKind::OrderSelect(s) => assert_eq!(s.choices, vec!["Make the bed", "Mow the lawn"]),
        _ => panic!("expected an order-select question"),
    }

    let q = Question::expand("overwrite".to_string())
        .choice('y', "Overwrite".to_string())
        .choice('d', "Show diff".to_string())
        .default('y')
        .build();
    match q.kind {
        QuestionKind::Expand(e) => {
            assert_eq!(e.choices.len(), 2);
            assert_eq!(e.choices[0], ('y', "Overwrite".to_string()));
            assert_eq!(e.choices[1], ('d', "Show diff".to_string()));
            assert_eq!(e.default, Some('y'));
        },
        _ => panic!("expected an expand question"),
    }
}

#[test]
fn input_validation_requires_value_or_default() {
    assert!(matches!(input_validation(true, false), Ok(Validation::Finish)));
    assert!(matches!(input_validation(false, true), Ok(Validation::Finish)));
    assert!(matches!(input_validation(true, true), Ok(Validation::Finish)));
    match input_validation(false, false) {
        Err(m) => assert_eq!(m, "Please enter a string"),
        Ok(_) => panic!("expected a validation error"),
    }
}

#[test]
fn remove_brackets_strips_ends() {
    assert_eq!(remove_brackets("(default)".to_string()), "default");
    assert_eq!(remove_brackets("(é)".to_string()), "é");
    assert_eq!(remove_brackets("ab".to_string()), "");
    assert_eq!(remove_brackets("a".to_string()), "");
}

#[test]
fn no_filter_accepts_everything() {
    assert_eq!(no_filter('a'), Some('a'));
    assert_eq!(no_filter('É'), Some('É'));
    assert_eq!(no_filter(' '), Some(' '));
}

#[test]
fn validation_has_two_outcomes() {
    let v = Validation::Finish;
    assert!(matches!(v, Validation::Finish));
    let v = Validation::Continue;
    assert!(matches!(v, Validation::Continue));
}

#[test]
fn movement_classification() {
    let none = KeyModifiers::empty();
    let ctrl = KeyModifiers::control();
    assert_eq!(Movement::try_from_key(KeyEvent::new(KeyCode::Left, none)), Some(Movement::Left));
    assert_eq!(Movement::try_from_key(KeyEvent::new(KeyCode::Right, none)), Some(Movement::Right));
    assert_eq!(
        Movement::try_from_key(KeyEvent::new(KeyCode::Left, ctrl)),
        Some(Movement::PrevWord)
    );
    assert_eq!(
        Movement::try_from_key(KeyEvent::new(KeyCode::Right, ctrl)),
        Some(Movement::NextWord)
    );
    assert_eq!(Movement::try_from_key(KeyEvent::new(KeyCode::Home, none)), Some(Movement::Home));
    assert_eq!(Movement::try_from_key(KeyEvent::new(KeyCode::End, none)), Some(Movement::End));
    assert_eq!(Movement::try_from_key(KeyEvent::new(KeyCode::Tab, none)), None);
    assert_eq!(Movement::try_from_key(KeyEvent::new(KeyCode::Char('b'), ctrl)), None);
}

#[test]
fn string_widget_renders_with_truncation() {
    let mut sink = TestBackend::new(Size::new(80, 24));
    let mut s = "hello".to_string();
    s.render(10, &mut sink).unwrap();
    assert_eq!(sink.bytes().as_slice(), b"hello");

    let mut sink = TestBackend::new(Size::new(80, 24));
    let mut s = "hello world".to_string();
    s.render(8, &mut sink).unwrap();
    assert_eq!(sink.bytes().as_slice(), b"hello...");

    let mut sink = TestBackend::new(Size::new(80, 24));
    assert_eq!(s.render(3, &mut sink), Err(RenderError::InvalidWidth));
    assert!(sink.bytes().is_empty());

    assert_eq!(s.height(), 0);
    assert_eq!(s.cursor_pos(4), (4, 0));
    assert!(!s.handle_key(KeyEvent::new(KeyCode::Char('x'), KeyModifiers::empty())));
}

#[test]
fn set_fg_writes_no_bytes() {
    let mut sink = TestBackend::new(Size::new(80, 24));
    sink.set_fg(Color::Cyan);
    sink.write_all(b"ok");
    sink.set_fg(Color::Reset);
    assert_eq!(sink.bytes().as_slice(), b"ok");
}

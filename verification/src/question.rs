//! Questions and their builders.
//!
//! A [`Question`] is a named prompt of one of several kinds, assembled
//! through a builder: free-text input, a password, a yes/no confirmation,
//! an integer, and the list-based kinds. The builders here carry the data
//! of a question — its name, message and per-kind settings; asking it,
//! which is terminal work, happens outside this crate's verified core.

use vstd::prelude::*;

use crate::chars::{chars_to_string, str_to_chars, subvec};
use crate::Validation;

verus! {

/// The options every question shares: its name (the key its answer is
/// stored under), the message shown when prompting (the name stands in when
/// there is none), whether to ask at all, and whether to ask again when an
/// answer already exists.
pub struct Options {
    pub name: String,
    pub message: Option<String>,
    pub when: bool,
    pub ask_if_answered: bool,
}

impl Options {
    /// Options with the given name, a message to be defaulted, asking once.
    pub fn new(name: String) -> (r: Self)
        ensures
            r == (Options { name, message: None, when: true, ask_if_answered: false }),
    {
        Options { name, message: None, when: true, ask_if_answered: false }
    }
}

/// Settings of a free-text input question.
pub struct Input {
    /// The answer taken when the user submits an empty line.
    pub default: Option<String>,
}

/// Settings of a password question.
pub struct Password {
    /// Echo this character per typed character; with none, echo nothing.
    pub mask: Option<char>,
}

/// Settings of a yes/no confirmation question.
pub struct Confirm {
    pub default: Option<bool>,
}

/// Settings of an integer question.
pub struct Int {
    pub default: Option<i64>,
}

/// Settings of a floating-point question. The parsed value and any default
/// are floating point, which stays outside this crate's verified core: the
/// caller that runs the prompt owns them, and the question itself only
/// names the kind.
pub struct Float {}

/// Settings of an expand question: options picked by a key character.
pub struct Expand {
    pub choices: Vec<(char, String)>,
    pub default: Option<char>,
}

/// Settings of a select question: one option out of a list.
pub struct Select {
    pub choices: Vec<String>,
}

/// Settings of a raw-select question: one option, picked by index.
pub struct RawSelect {
    pub choices: Vec<String>,
}

/// Settings of an order-select question: the options, to be reordered.
pub struct OrderSelect {
    pub choices: Vec<String>,
}

/// What kind of prompt a question is, with that kind's settings.
pub enum QuestionKind {
    Input(Input),
    Password(Password),
    Confirm(Confirm),
    Int(Int),
    Float(Float),
    Expand(Expand),
    Select(Select),
    RawSelect(RawSelect),
    OrderSelect(OrderSelect),
}

/// A question that can be asked: a kind plus the common options.
pub struct Question {
    pub kind: QuestionKind,
    pub opts: Options,
}

impl Question {
    fn new(opts: Options, kind: QuestionKind) -> (r: Self)
        ensures
            r == (Question { kind, opts }),
    {
        Question { kind, opts }
    }

    /// A prompt that takes user input and returns a string.
    pub fn input(name: String) -> (r: InputBuilder)
        ensures
            r.opts == (Options { name, message: None, when: true, ask_if_answered: false }),
            r.input == (Input { default: None }),
    {
        InputBuilder { opts: Options::new(name), input: Input { default: None } }
    }

    /// A prompt that takes user input and hides it.
    pub fn password(name: String) -> (r: PasswordBuilder)
        ensures
            r.opts == (Options { name, message: None, when: true, ask_if_answered: false }),
            r.password == (Password { mask: None }),
    {
        PasswordBuilder { opts: Options::new(name), password: Password { mask: None } }
    }

    /// A prompt that returns true or false.
    pub fn confirm(name: String) -> (r: ConfirmBuilder)
        ensures
            r.opts == (Options { name, message: None, when: true, ask_if_answered: false }),
            r.confirm == (Confirm { default: None }),
    {
        ConfirmBuilder { opts: Options::new(name), confirm: Confirm { default: None } }
    }

    /// A prompt that takes an integer as input.
    pub fn integer(name: String) -> (r: IntBuilder)
        ensures
            r.opts == (Options { name, message: None, when: true, ask_if_answered: false }),
            r.int_settings == (Int { default: None }),
    {
        IntBuilder { opts: Options::new(name), int_settings: Int { default: None } }
    }

    /// A prompt that takes a floating-point number as input.
    pub fn float(name: String) -> (r: FloatBuilder)
        ensures
            r.opts == (Options { name, message: None, when: true, ask_if_answered: false }),
    {
        FloatBuilder { opts: Options::new(name), float: Float {} }
    }

    /// A prompt that picks one of a list of options by a key character.
    pub fn expand(name: String) -> (r: ExpandBuilder)
        ensures
            r.opts == (Options { name, message: None, when: true, ask_if_answered: false }),
            r.expand.choices@ == Seq::<(char, String)>::empty(),
            r.expand.default is None,
    {
        ExpandBuilder { opts: Options::new(name), expand: Expand { choices: Vec::new(), default: None } }
    }

    /// A prompt that selects one option from a list.
    pub fn select(name: String) -> (r: SelectBuilder)
        ensures
            r.opts == (Options { name, message: None, when: true, ask_if_answered: false }),
            r.select.choices@ == Seq::<String>::empty(),
    {
        SelectBuilder { opts: Options::new(name), select: Select { choices: Vec::new() } }
    }

    /// A prompt that selects one option from an index-numbered list.
    pub fn raw_select(name: String) -> (r: RawSelectBuilder)
        ensures
            r.opts == (Options { name, message: None, when: true, ask_if_answered: false }),
            r.raw_select.choices@ == Seq::<String>::empty(),
    {
        RawSelectBuilder { opts: Options::new(name), raw_select: RawSelect { choices: Vec::new() } }
    }

    /// A prompt that lets the user reorder a list of options.
    pub fn order_select(name: String) -> (r: OrderSelectBuilder)
        ensures
            r.opts == (Options { name, message: None, when: true, ask_if_answered: false }),
            r.order_select.choices@ == Seq::<String>::empty(),
    {
        OrderSelectBuilder {
            opts: Options::new(name),
            order_select: OrderSelect { choices: Vec::new() },
        }
    }
}

/// The builder for an input question.
pub struct InputBuilder {
    pub opts: Options,
    pub input: Input,
}

impl InputBuilder {
    /// The message to display when the prompt is rendered.
    pub fn message(self, message: String) -> (r: Self)
        ensures
            r.opts == (Options { message: Some(message), ..self.opts }),
            r.input == self.input,
    {
        InputBuilder { opts: Options { message: Some(message), ..self.opts }, ..self }
    }

    /// Whether to ask the question at all.
    pub fn when(self, when: bool) -> (r: Self)
        ensures
            r.opts == (Options { when, ..self.opts }),
            r.input == self.input,
    {
        InputBuilder { opts: Options { when, ..self.opts }, ..self }
    }

    /// Prompt the question even if it was already answered.
    pub fn ask_if_answered(self, ask_if_answered: bool) -> (r: Self)
        ensures
            r.opts == (Options { ask_if_answered, ..self.opts }),
            r.input == self.input,
    {
        InputBuilder { opts: Options { ask_if_answered, ..self.opts }, ..self }
    }

    /// The answer taken when the user submits an empty line.
    pub fn default(self, default: String) -> (r: Self)
        ensures
            r.opts == self.opts,
            r.input == (Input { default: Some(default) }),
    {
        InputBuilder { input: Input { default: Some(default) }, ..self }
    }

    /// Consumes the builder, returning a [`Question`].
    pub fn build(self) -> (r: Question)
        ensures
            r.opts == self.opts,
            r.kind == QuestionKind::Input(self.input),
    {
        Question::new(self.opts, QuestionKind::Input(self.input))
    }
}

/// The builder for a password question.
pub struct PasswordBuilder {
    pub opts: Options,
    pub password: Password,
}

impl PasswordBuilder {
    /// The message to display when the prompt is rendered.
    pub fn message(self, message: String) -> (r: Self)
        ensures
            r.opts == (Options { message: Some(message), ..self.opts }),
            r.password == self.password,
    {
        PasswordBuilder { opts: Options { message: Some(message), ..self.opts }, ..self }
    }

    /// Echo the given character for each typed one, instead of hiding the
    /// input entirely.
    pub fn mask(self, mask: char) -> (r: Self)
        ensures
            r.opts == self.opts,
            r.password == (Password { mask: Some(mask) }),
    {
        PasswordBuilder { password: Password { mask: Some(mask) }, ..self }
    }

    /// Consumes the builder, returning a [`Question`].
    pub fn build(self) -> (r: Question)
        ensures
            r.opts == self.opts,
            r.kind == QuestionKind::Password(self.password),
    {
        Question::new(self.opts, QuestionKind::Password(self.password))
    }
}

/// The builder for a confirmation question.
pub struct ConfirmBuilder {
    pub opts: Options,
    pub confirm: Confirm,
}

impl ConfirmBuilder {
    /// The message to display when the prompt is rendered.
    pub fn message(self, message: String) -> (r: Self)
        ensures
            r.opts == (Options { message: Some(message), ..self.opts }),
            r.confirm == self.confirm,
    {
        ConfirmBuilder { opts: Options { message: Some(message), ..self.opts }, ..self }
    }

    /// The answer taken when the user submits nothing.
    pub fn default(self, default: bool) -> (r: Self)
        ensures
            r.opts == self.opts,
            r.confirm == (Confirm { default: Some(default) }),
    {
        ConfirmBuilder { confirm: Confirm { default: Some(default) }, ..self }
    }

    /// Consumes the builder, returning a [`Question`].
    pub fn build(self) -> (r: Question)
        ensures
            r.opts == self.opts,
            r.kind == QuestionKind::Confirm(self.confirm),
    {
        Question::new(self.opts, QuestionKind::Confirm(self.confirm))
    }
}

/// The builder for an integer question.
pub struct IntBuilder {
    pub opts: Options,
    pub int_settings: Int,
}

impl IntBuilder {
    /// The message to display when the prompt is rendered.
    pub fn message(self, message: String) -> (r: Self)
        ensures
            r.opts == (Options { message: Some(message), ..self.opts }),
            r.int_settings == self.int_settings,
    {
        IntBuilder { opts: Options { message: Some(message), ..self.opts }, ..self }
    }

    /// The answer taken when the user submits an empty line.
    pub fn default(self, default: i64) -> (r: Self)
        ensures
            r.opts == self.opts,
            r.int_settings == (Int { default: Some(default) }),
    {
        IntBuilder { int_settings: Int { default: Some(default) }, ..self }
    }

    /// Consumes the builder, returning a [`Question`].
    pub fn build(self) -> (r: Question)
        ensures
            r.opts == self.opts,
            r.kind == QuestionKind::Int(self.int_settings),
    {
        Question::new(self.opts, QuestionKind::Int(self.int_settings))
    }
}

/// The builder for a floating-point question.
pub struct FloatBuilder {
    pub opts: Options,
    pub float: Float,
}

impl FloatBuilder {
    /// The message to display when the prompt is rendered.
    pub fn message(self, message: String) -> (r: Self)
        ensures
            r.opts == (Options { message: Some(message), ..self.opts }),
    {
        FloatBuilder { opts: Options { message: Some(message), ..self.opts }, ..self }
    }

    /// Consumes the builder, returning a [`Question`].
    pub fn build(self) -> (r: Question)
        ensures
            r.opts == self.opts,
            r.kind == QuestionKind::Float(self.float),
    {
        Question::new(self.opts, QuestionKind::Float(self.float))
    }
}

/// The builder for an expand question.
pub struct ExpandBuilder {
    pub opts: Options,
    pub expand: Expand,
}

impl ExpandBuilder {
    /// The message to display when the prompt is rendered.
    pub fn message(self, message: String) -> (r: Self)
        ensures
            r.opts == (Options { message: Some(message), ..self.opts }),
            r.expand.choices@ == self.expand.choices@,
            r.expand.default == self.expand.default,
    {
        ExpandBuilder { opts: Options { message: Some(message), ..self.opts }, ..self }
    }

    /// Adds one choice under its key character.
    pub fn choice(self, key: char, choice: String) -> (r: Self)
        ensures
            r.opts == self.opts,
            r.expand.choices@ == self.expand.choices@.push((key, choice)),
            r.expand.default == self.expand.default,
    {
        let ExpandBuilder { opts, expand } = self;
        let Expand { mut choices, default } = expand;
        choices.push((key, choice));
        ExpandBuilder { opts, expand: Expand { choices, default } }
    }

    /// The key taken when the user submits nothing.
    pub fn default(self, default: char) -> (r: Self)
        ensures
            r.opts == self.opts,
            r.expand.choices@ == self.expand.choices@,
            r.expand.default == Some(default),
    {
        let ExpandBuilder { opts, expand } = self;
        ExpandBuilder { opts, expand: Expand { default: Some(default), ..expand } }
    }

    /// Consumes the builder, returning a [`Question`].
    pub fn build(self) -> (r: Question)
        ensures
            r.opts == self.opts,
            r.kind == QuestionKind::Expand(self.expand),
    {
        Question::new(self.opts, QuestionKind::Expand(self.expand))
    }
}

/// The builder for a select question.
pub struct SelectBuilder {
    pub opts: Options,
    pub select: Select,
}

impl SelectBuilder {
    /// The message to display when the prompt is rendered.
    pub fn message(self, message: String) -> (r: Self)
        ensures
            r.opts == (Options { message: Some(message), ..self.opts }),
            r.select.choices@ == self.select.choices@,
    {
        SelectBuilder { opts: Options { message: Some(message), ..self.opts }, ..self }
    }

    /// Adds one choice at the end of the list.
    pub fn choice(self, choice: String) -> (r: Self)
        ensures
            r.opts == self.opts,
            r.select.choices@ == self.select.choices@.push(choice),
    {
        let SelectBuilder { opts, select } = self;
        let Select { mut choices } = select;
        choices.push(choice);
        SelectBuilder { opts, select: Select { choices } }
    }

    /// Consumes the builder, returning a [`Question`].
    pub fn build(self) -> (r: Question)
        ensures
            r.opts == self.opts,
            r.kind == QuestionKind::Select(self.select),
    {
        Question::new(self.opts, QuestionKind::Select(self.select))
    }
}

/// The builder for a raw-select question.
pub struct RawSelectBuilder {
    pub opts: Options,
    pub raw_select: RawSelect,
}

impl RawSelectBuilder {
    /// The message to display when the prompt is rendered.
    pub fn message(self, message: String) -> (r: Self)
        ensures
            r.opts == (Options { message: Some(message), ..self.opts }),
            r.raw_select.choices@ == self.raw_select.choices@,
    {
        RawSelectBuilder { opts: Options { message: Some(message), ..self.opts }, ..self }
    }

    /// Adds one choice at the end of the list.
    pub fn choice(self, choice: String) -> (r: Self)
        ensures
            r.opts == self.opts,
            r.raw_select.choices@ == self.raw_select.choices@.push(choice),
    {
        let RawSelectBuilder { opts, raw_select } = self;
        let RawSelect { mut choices } = raw_select;
        choices.push(choice);
        RawSelectBuilder { opts, raw_select: RawSelect { choices } }
    }

    /// Consumes the builder, returning a [`Question`].
    pub fn build(self) -> (r: Question)
        ensures
            r.opts == self.opts,
            r.kind == QuestionKind::RawSelect(self.raw_select),
    {
        Question::new(self.opts, QuestionKind::RawSelect(self.raw_select))
    }
}

/// The builder for an order-select question.
pub struct OrderSelectBuilder {
    pub opts: Options,
    pub order_select: OrderSelect,
}

impl OrderSelectBuilder {
    /// The message to display when the prompt is rendered.
    pub fn message(self, message: String) -> (r: Self)
        ensures
            r.opts == (Options { message: Some(message), ..self.opts }),
            r.order_select.choices@ == self.order_select.choices@,
    {
        OrderSelectBuilder { opts: Options { message: Some(message), ..self.opts }, ..self }
    }

    /// Adds one choice at the end of the list.
    pub fn choice(self, choice: String) -> (r: Self)
        ensures
            r.opts == self.opts,
            r.order_select.choices@ == self.order_select.choices@.push(choice),
    {
        let OrderSelectBuilder { opts, order_select } = self;
        let OrderSelect { mut choices } = order_select;
        choices.push(choice);
        OrderSelectBuilder { opts, order_select: OrderSelect { choices } }
    }

    /// Consumes the builder, returning a [`Question`].
    pub fn build(self) -> (r: Question)
        ensures
            r.opts == self.opts,
            r.kind == QuestionKind::OrderSelect(self.order_select),
    {
        Question::new(self.opts, QuestionKind::OrderSelect(self.order_select))
    }
}

/// The validation step of an input question on submission: the prompt may
/// finish once the buffer has ever held a character or a default stands in,
/// and otherwise the user is asked to enter a string.
pub fn input_validation(has_value: bool, has_default: bool) -> (r: Result<Validation, String>)
    ensures
        (has_value || has_default) ==> (r matches Ok(Validation::Finish)),
        !(has_value || has_default) ==> (r matches Err(m) && m@ == "Please enter a string"@),
{
    if !has_value && !has_default {
        Err("Please enter a string".to_owned())
    } else {
        Ok(Validation::Finish)
    }
}

/// Strips the wrapping pair of brackets a displayed default carries: the
/// first and last character of the string.
pub fn remove_brackets(s: String) -> (r: String)
    requires
        s@.len() >= 1,
    ensures
        r@ == if s@.len() >= 2 {
            s@.subrange(1, s@.len() - 1)
        } else {
            Seq::<char>::empty()
        },
{
    let chars = str_to_chars(s.as_str());
    if chars.len() >= 2 {
        let mid = subvec(&chars, 1, chars.len() - 1);
        chars_to_string(&mid)
    } else {
        String::new()
    }
}

} // verus!

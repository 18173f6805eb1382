//! The labelled text input.

use crate::classes::{class_list, class_name, class_name_text, classes};
use crate::components::error::{
    error_element, shown, shown_text, ErrorElementView, ErrorProps, ErrorSize,
};
use vstd::prelude::*;

verus! {

/// The type of input element.
#[derive(Debug, Clone, Copy, PartialEq, Eq, Structural)]
pub enum InputType {
    /// Standard text input.
    Text,
    /// Email address input.
    Email,
    /// Telephone number input.
    Tel,
    /// URL input.
    Url,
    /// Password input.
    Password,
}

impl Default for InputType {
    fn default() -> (input_type: Self)
        ensures
            input_type == InputType::Text,
    {
        InputType::Text
    }
}

impl InputType {
    /// The value of the `type` attribute of the input element.
    pub open spec fn html_text(self) -> Seq<char> {
        match self {
            InputType::Text => "text"@,
            InputType::Email => "email"@,
            InputType::Tel => "tel"@,
            InputType::Url => "url"@,
            InputType::Password => "password"@,
        }
    }

    /// Gets the HTML input element type corresponding to the current input type.
    pub fn html_input_type(&self) -> (name: &'static str)
        ensures
            name@ == self.html_text(),
    {
        match *self {
            InputType::Text => "text",
            InputType::Email => "email",
            InputType::Tel => "tel",
            InputType::Url => "url",
            InputType::Password => "password",
        }
    }
}

/// The greatest number of characters that an input takes unless its
/// properties say otherwise.
pub const DEFAULT_MAX_LENGTH: usize = 524288;

/// Input properties.
#[derive(Debug, Clone, Copy)]
pub struct InputProps<'a> {
    /// The input state: the text that its owner holds at this render.
    pub state: &'a str,
    /// The input type.
    pub input_type: InputType,
    /// The input label.
    pub label: Option<&'a str>,
    /// Input placeholder text.
    pub placeholder: Option<&'a str>,
    /// The maximum number of characters allowed. The host enforces it, the
    /// component only hands it on.
    pub max_length: usize,
    /// Whether the input is required to be filled out.
    pub required: bool,
    /// Whether the input is disabled.
    pub disabled: bool,
    /// An optional error message.
    pub error: Option<&'a str>,
}

impl<'a> InputProps<'a> {
    /// The properties of a plain text input bound to `state`: no label, no
    /// placeholder, no error, neither required nor disabled.
    pub fn new(state: &'a str) -> (props: Self)
        ensures
            props.state == state,
            props.input_type == InputType::Text,
            props.label is None,
            props.placeholder is None,
            props.max_length == DEFAULT_MAX_LENGTH,
            !props.required,
            !props.disabled,
            props.error is None,
    {
        InputProps {
            state,
            input_type: InputType::Text,
            label: None,
            placeholder: None,
            max_length: DEFAULT_MAX_LENGTH,
            required: false,
            disabled: false,
            error: None,
        }
    }

    /// What the owner's state becomes when the host reports that the text
    /// of the input is now `value`: `value`, whole, whatever the state was
    /// before. A disabled input asks for no change.
    pub open spec fn input_change(self, value: Seq<char>) -> Option<Seq<char>> {
        if self.disabled {
            None
        } else {
            Some(value)
        }
    }

    /// Answers an input event: the text to write into the owner's state, at
    /// most one write for one event.
    pub fn on_input(&self, value: &str) -> (change: Option<String>)
        ensures
            match change {
                Some(text) => self.input_change(value@) == Some(text@),
                None => self.input_change(value@) is None,
            },
    {
        if self.disabled {
            None
        } else {
            Some(String::from_str(value))
        }
    }
}

/// What a [`LabelElement`] stands for.
pub struct LabelElementView {
    /// The class attribute.
    pub class: Seq<char>,
    /// The identifier of the input that the label belongs to.
    pub html_for: Seq<char>,
    /// The text of the label.
    pub text: Seq<char>,
    /// The class attribute of the mark of a required input.
    pub mark_class: Seq<char>,
    /// The text of the mark: ` *` for a required input, none for another.
    pub mark: Option<Seq<char>>,
}

/// The label of an input as the host draws it, with the mark that shows
/// that the input is required inside it.
#[derive(Debug)]
pub struct LabelElement {
    /// The class attribute.
    pub class: String,
    /// The identifier of the input that the label belongs to.
    pub html_for: String,
    /// The text of the label.
    pub text: String,
    /// The class attribute of the mark of a required input.
    pub mark_class: String,
    /// The text of the mark: ` *` for a required input, none for another.
    pub mark: Option<String>,
}

impl View for LabelElement {
    type V = LabelElementView;

    open spec fn view(&self) -> LabelElementView {
        LabelElementView {
            class: self.class@,
            html_for: self.html_for@,
            text: self.text@,
            mark_class: self.mark_class@,
            mark: match self.mark {
                Some(text) => Some(text@),
                None => None,
            },
        }
    }
}

/// What a [`FieldElement`] stands for.
pub struct FieldElementView {
    /// The class attribute.
    pub class: Seq<char>,
    /// The text in the field.
    pub value: Seq<char>,
    /// The identifier of the field.
    pub id: Seq<char>,
    /// The `type` attribute.
    pub input_type: Seq<char>,
    /// The placeholder.
    pub placeholder: Seq<char>,
    /// The greatest number of characters.
    pub max_length: usize,
    /// Whether the field must be filled out.
    pub required: bool,
    /// Whether the field is disabled.
    pub disabled: bool,
}

/// The native input element as the host draws it.
#[derive(Debug)]
pub struct FieldElement {
    /// The class attribute.
    pub class: String,
    /// The text in the field.
    pub value: String,
    /// The identifier of the field.
    pub id: String,
    /// The `type` attribute.
    pub input_type: String,
    /// The placeholder.
    pub placeholder: String,
    /// The greatest number of characters.
    pub max_length: usize,
    /// Whether the field must be filled out.
    pub required: bool,
    /// Whether the field is disabled.
    pub disabled: bool,
}

impl View for FieldElement {
    type V = FieldElementView;

    open spec fn view(&self) -> FieldElementView {
        FieldElementView {
            class: self.class@,
            value: self.value@,
            id: self.id@,
            input_type: self.input_type@,
            placeholder: self.placeholder@,
            max_length: self.max_length,
            required: self.required,
            disabled: self.disabled,
        }
    }
}

/// What an [`InputElement`] stands for.
pub struct InputElementView {
    /// The class attribute of the container.
    pub class: Seq<char>,
    /// The label.
    pub label: LabelElementView,
    /// The input element itself.
    pub field: FieldElementView,
    /// The error label below the field.
    pub error: ErrorElementView,
}

/// A labelled input as the host draws it: a container with the label, the
/// field and the error label.
#[derive(Debug)]
pub struct InputElement<'a> {
    /// The class attribute of the container.
    pub class: String,
    /// The label.
    pub label: LabelElement,
    /// The input element itself.
    pub field: FieldElement,
    /// The properties of the error label below the field, which is a
    /// component of its own.
    pub error: ErrorProps<'a>,
}

impl<'a> View for InputElement<'a> {
    type V = InputElementView;

    open spec fn view(&self) -> InputElementView {
        InputElementView {
            class: self.class@,
            label: self.label@,
            field: self.field@,
            error: error_element(self.error),
        }
    }
}

/// `name` where `present` holds, nothing where it does not.
pub open spec fn class_if(present: bool, name: Seq<char>) -> Option<Seq<char>> {
    if present {
        Some(name)
    } else {
        None
    }
}

/// The class attribute of the container: the class
/// `dioxico-input-container`, and `dioxico-input-container-disabled` where
/// the input is disabled.
pub open spec fn container_class(disabled: bool) -> Seq<char> {
    class_list(
        class_name_text("input-container"@),
        class_if(disabled, class_name_text("input-container-disabled"@)),
    )
}

/// The class attribute of the field: the class `dioxico-input`, and
/// `dioxico-input-invalid` whenever there is an error message, whether or
/// not anything was typed yet.
pub open spec fn field_class(error: Option<&str>) -> Seq<char> {
    class_list(
        class_name_text("input"@),
        class_if(error is Some, class_name_text("input-invalid"@)),
    )
}

/// The text of the mark behind the label of an input: ` *` where the input
/// is required, none where it is not.
pub open spec fn required_mark(required: bool) -> Option<Seq<char>> {
    if required {
        Some(" *"@)
    } else {
        None
    }
}

/// The properties of the error label of an input: the error message of the
/// input, at small size.
pub open spec fn error_props<'a>(props: InputProps<'a>) -> ErrorProps<'a> {
    ErrorProps { message: props.error, size: ErrorSize::Small }
}

/// What the input renders for `props` under the identifier `id`.
pub open spec fn input_element(props: InputProps, id: Seq<char>) -> InputElementView {
    InputElementView {
        class: container_class(props.disabled),
        label: LabelElementView {
            class: class_name_text("input-label"@),
            html_for: id,
            text: shown_text(props.label),
            mark_class: class_name_text("required-mark"@),
            mark: required_mark(props.required),
        },
        field: FieldElementView {
            class: field_class(props.error),
            value: props.state@,
            id,
            input_type: props.input_type.html_text(),
            placeholder: shown_text(props.placeholder),
            max_length: props.max_length,
            required: props.required,
            disabled: props.disabled,
        },
        error: error_element(error_props(props)),
    }
}

/// An input element. `id` is the identifier of this instance of the
/// component: its owner makes it once, when the instance is mounted, and
/// hands the same one to every render.
#[allow(non_snake_case)]
pub fn Input<'a>(props: &InputProps<'a>, id: &str) -> (element: InputElement<'a>)
    ensures
        element@ == input_element(*props, id@),
        element.error == error_props(*props),
{
    let container = class_name("input-container");
    let container_disabled = class_name("input-container-disabled");
    let container_class = if props.disabled {
        classes(container.as_str(), Some(container_disabled.as_str()))
    } else {
        classes(container.as_str(), None)
    };
    let field = class_name("input");
    let field_invalid = class_name("input-invalid");
    let field_class = match props.error {
        Some(_) => classes(field.as_str(), Some(field_invalid.as_str())),
        None => classes(field.as_str(), None),
    };
    let mark = if props.required {
        Some(String::from_str(" *"))
    } else {
        None
    };
    InputElement {
        class: container_class,
        label: LabelElement {
            class: class_name("input-label"),
            html_for: String::from_str(id),
            text: shown(props.label),
            mark_class: class_name("required-mark"),
            mark,
        },
        field: FieldElement {
            class: field_class,
            value: String::from_str(props.state),
            id: String::from_str(id),
            input_type: String::from_str(props.input_type.html_input_type()),
            placeholder: shown(props.placeholder),
            max_length: props.max_length,
            required: props.required,
            disabled: props.disabled,
        },
        error: ErrorProps { message: props.error, size: ErrorSize::Small },
    }
}

/// The identifier that an input was rendered with stands both in the label,
/// as the input that the label belongs to, and in the field, as its own.
/// Rendering the same instance again, with whatever properties, shows the
/// same identifier.
pub proof fn lemma_identifier_is_kept(first: InputProps, second: InputProps, id: Seq<char>)
    ensures
        input_element(first, id).label.html_for == id,
        input_element(first, id).field.id == id,
        input_element(second, id).label.html_for == input_element(first, id).label.html_for,
        input_element(second, id).field.id == input_element(first, id).field.id,
{
}

/// The error label of an input shows the error message of the input,
/// whole, or nothing where there is none, and its class attribute is that
/// of a small label.
pub proof fn lemma_error_label(props: InputProps, id: Seq<char>)
    ensures
        input_element(props, id).error.text == shown_text(props.error),
        input_element(props, id).error.class == "error"@ + seq![' '] + "text-small"@,
{
    reveal_strlit("text-");
    reveal_strlit("small");
    reveal_strlit("text-small");
    assert("text-"@ + "small"@ =~= "text-small"@);
}

/// A disabled input is rendered as disabled and asks for no change of the
/// state; any other input asks for the whole new text.
pub proof fn lemma_input_change(props: InputProps, id: Seq<char>, value: Seq<char>)
    ensures
        input_element(props, id).field.disabled == props.disabled,
        props.disabled ==> props.input_change(value) is None,
        !props.disabled ==> props.input_change(value) == Some(value),
{
}

} // verus!

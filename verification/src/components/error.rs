//! The error label.

use crate::classes::{class_list, classes};
use vstd::prelude::*;

verus! {

/// The size of an error message.
#[derive(Debug, Clone, Copy, PartialEq, Eq, Structural)]
pub enum ErrorSize {
    /// A very small message.
    Smaller,
    /// A small message.
    Small,
    /// A medium sized message.
    Medium,
    /// A large message.
    Large,
    /// A very large message.
    Larger,
}

impl Default for ErrorSize {
    fn default() -> (size: Self)
        ensures
            size == ErrorSize::Medium,
    {
        ErrorSize::Medium
    }
}

impl ErrorSize {
    /// The name of the size.
    pub open spec fn name_text(self) -> Seq<char> {
        match self {
            ErrorSize::Smaller => "smaller"@,
            ErrorSize::Small => "small"@,
            ErrorSize::Medium => "medium"@,
            ErrorSize::Large => "large"@,
            ErrorSize::Larger => "larger"@,
        }
    }

    /// Gets the name of the error message size.
    pub fn size_name(&self) -> (name: &'static str)
        ensures
            name@ == self.name_text(),
    {
        match *self {
            ErrorSize::Smaller => "smaller",
            ErrorSize::Small => "small",
            ErrorSize::Medium => "medium",
            ErrorSize::Large => "large",
            ErrorSize::Larger => "larger",
        }
    }
}

/// Error properties.
#[derive(Debug, Clone, Copy)]
pub struct ErrorProps<'a> {
    /// The error message; without one the label is empty.
    pub message: Option<&'a str>,
    /// The size of the error message.
    pub size: ErrorSize,
}

impl<'a> Default for ErrorProps<'a> {
    /// No message, at medium size.
    fn default() -> (props: Self)
        ensures
            props.message is None,
            props.size == ErrorSize::Medium,
    {
        ErrorProps { message: None, size: ErrorSize::Medium }
    }
}

/// What an [`ErrorElement`] stands for.
pub struct ErrorElementView {
    /// The class attribute.
    pub class: Seq<char>,
    /// The text inside the element.
    pub text: Seq<char>,
}

/// An error label as the host draws it: one text element.
#[derive(Debug)]
pub struct ErrorElement {
    /// The class attribute.
    pub class: String,
    /// The text inside the element.
    pub text: String,
}

impl View for ErrorElement {
    type V = ErrorElementView;

    open spec fn view(&self) -> ErrorElementView {
        ErrorElementView { class: self.class@, text: self.text@ }
    }
}

/// The text that a label shows for `message`: the message, or nothing
/// where there is none.
pub open spec fn shown_text(message: Option<&str>) -> Seq<char> {
    match message {
        Some(text) => text@,
        None => Seq::empty(),
    }
}

/// The class attribute of an error label of `size`: the class `error`, and
/// the text class of the size, such as `text-small`.
pub open spec fn error_class(size: ErrorSize) -> Seq<char> {
    class_list("error"@, Some("text-"@ + size.name_text()))
}

/// What the error label renders for `props`.
pub open spec fn error_element(props: ErrorProps) -> ErrorElementView {
    ErrorElementView { class: error_class(props.size), text: shown_text(props.message) }
}

/// A label without a message has no text, and a label with one shows it
/// whole. The class attribute of a label is the class `error`, a space, and
/// the text class of the label's size: it starts with `error` and ends with
/// the name of the size.
pub proof fn lemma_error_element(props: ErrorProps)
    ensures
        props.message is None ==> error_element(props).text.len() == 0,
        props.message matches Some(message) ==> error_element(props).text == message@,
        error_element(props).class == "error"@ + seq![' '] + ("text-"@ + props.size.name_text()),
        "error"@.is_prefix_of(error_element(props).class),
        props.size.name_text().is_suffix_of(error_element(props).class),
{
}

/// The text to show for `message`.
pub fn shown(message: Option<&str>) -> (text: String)
    ensures
        text@ == shown_text(message),
{
    match message {
        Some(text) => String::from_str(text),
        None => String::new(),
    }
}

/// An error element. It is rendered also where there is no message, as an
/// empty label, so that the place of the message is kept free.
#[allow(non_snake_case)]
pub fn Error(props: &ErrorProps) -> (element: ErrorElement)
    ensures
        element@ == error_element(*props),
{
    let mut text_class = String::from_str("text-");
    text_class.append(props.size.size_name());
    ErrorElement {
        class: classes("error", Some(text_class.as_str())),
        text: shown(props.message),
    }
}

} // verus!

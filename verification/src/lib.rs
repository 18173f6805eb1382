//! Styled form components: a value model for style constants, a theme, and
//! two components, an error label and a labelled text input.
//!
//! A component is a function from its properties to a description of the
//! elements to draw, made of plain values. A host draws the description and
//! reports what the user types; the library answers with the change that
//! the owner of the state is to make. Nothing here touches the host.
//!
//! Every function is verified against its contract. One thing is taken on
//! trust: which color a text denotes in a style sheet, which
//! `csscolorparser` decides (see [`styles::css_rgba8`]).

#![allow(non_snake_case)]

pub mod classes;
pub mod components;
pub mod styles;
pub mod text;
pub mod theme;
pub mod util;

pub use components::error::{Error, ErrorElement, ErrorProps, ErrorSize};
pub use components::input::{
    FieldElement, Input, InputElement, InputProps, InputType, LabelElement, DEFAULT_MAX_LENGTH,
};
pub use styles::{Color, Length, LengthUnit, Lengths, ParseError, StyleConstants};
pub use theme::{use_theme, Theme};
pub use util::new_id;

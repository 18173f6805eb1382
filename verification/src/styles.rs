//! The value model of style constants: lengths with units, lists of lengths,
//! and colors.

use crate::text::{
    count_spaces, digit, has_no_space, hex_pair, hex_pair_string, is_decimal_digits, is_digit,
    is_number_text, join_spaced, lemma_number_text_has_no_space,
    lemma_signed_decimal_text_is_number, lemma_spaced_count, lemma_spaced_layout, segment_start,
    signed_decimal_string, signed_decimal_text, spaced, texts,
};
use vstd::prelude::*;

verus! {

/// The unit of a length.
#[derive(Debug, Clone, Copy, PartialEq, Eq, Structural)]
pub enum LengthUnit {
    /// Pixels.
    Px,
    /// Points.
    Pt,
    /// The font size of the element.
    Em,
    /// The font size of the root element.
    Rem,
}

impl Default for LengthUnit {
    /// Lengths are in pixels unless they say otherwise.
    fn default() -> (unit: Self)
        ensures
            unit == LengthUnit::Px,
    {
        LengthUnit::Px
    }
}

impl LengthUnit {
    /// The suffix that the unit is written with.
    pub open spec fn suffix_text(self) -> Seq<char> {
        match self {
            LengthUnit::Px => seq!['p', 'x'],
            LengthUnit::Pt => seq!['p', 't'],
            LengthUnit::Em => seq!['e', 'm'],
            LengthUnit::Rem => seq!['r', 'e', 'm'],
        }
    }

    /// The suffix that the unit is written with: `px`, `pt`, `em` or `rem`.
    pub fn suffix(&self) -> (s: &'static str)
        ensures
            s@ == self.suffix_text(),
            s@ == "px"@ || s@ == "pt"@ || s@ == "em"@ || s@ == "rem"@,
    {
        proof {
            reveal_strlit("px");
            reveal_strlit("pt");
            reveal_strlit("em");
            reveal_strlit("rem");
            assert("px"@ =~= seq!['p', 'x']);
            assert("pt"@ =~= seq!['p', 't']);
            assert("em"@ =~= seq!['e', 'm']);
            assert("rem"@ =~= seq!['r', 'e', 'm']);
        }
        match self {
            LengthUnit::Px => "px",
            LengthUnit::Pt => "pt",
            LengthUnit::Em => "em",
            LengthUnit::Rem => "rem",
        }
    }

    /// The unit as it is written in a style sheet.
    pub fn to_string(&self) -> (s: String)
        ensures
            s@ == self.suffix_text(),
    {
        String::from_str(self.suffix())
    }
}

/// What a [`Length`] stands for: a number, held as the text it is written
/// with, and a unit.
pub struct LengthView {
    /// The number, as written.
    pub value: Seq<char>,
    /// The unit.
    pub units: LengthUnit,
}

impl LengthView {
    /// The canonical text of the length: the number, then the unit's suffix.
    pub open spec fn text(self) -> Seq<char> {
        self.value + self.units.suffix_text()
    }

    /// The length of `value` pixels, the unit of a bare number.
    pub open spec fn bare(value: Seq<char>) -> LengthView {
        LengthView { value, units: LengthUnit::Px }
    }

    /// Whether the value is the text that a number is written with. A
    /// length is not held to it: what it was given, it renders.
    pub open spec fn is_number(self) -> bool {
        is_number_text(self.value)
    }
}

/// A number with a unit. The number is held as the text it is written with,
/// so that it is rendered exactly as it was given, whole or fractional; it
/// is never checked or changed.
#[derive(Debug)]
pub struct Length {
    value: String,
    units: LengthUnit,
}

impl View for Length {
    type V = LengthView;

    closed spec fn view(&self) -> LengthView {
        LengthView { value: self.value@, units: self.units }
    }
}

impl Clone for Length {
    fn clone(&self) -> (copy: Self)
        ensures
            copy == *self,
    {
        Length { value: self.value.clone(), units: self.units }
    }
}

impl PartialEq for Length {
    /// Lengths are compared by value: two are equal where their numbers
    /// are written alike and their units are the same.
    fn eq(&self, other: &Self) -> (equal: bool) {
        self.value == other.value && self.units == other.units
    }
}

impl vstd::std_specs::cmp::PartialEqSpecImpl for Length {
    open spec fn obeys_eq_spec() -> bool {
        true
    }

    open spec fn eq_spec(&self, other: &Self) -> bool {
        self@ == other@
    }
}

impl Eq for Length {

}

impl Length {
    /// The length of `value` in `units`.
    pub fn new(value: &str, units: LengthUnit) -> (length: Self)
        ensures
            length@ == (LengthView { value: value@, units }),
    {
        Length { value: String::from_str(value), units }
    }

    /// The number of the length, as written.
    pub fn value(&self) -> (value: &str)
        ensures
            value@ == self@.value,
    {
        self.value.as_str()
    }

    /// The unit of the length.
    pub fn units(&self) -> (units: LengthUnit)
        ensures
            units == self@.units,
    {
        self.units
    }

    /// The text of the length: its number, as written, followed by its
    /// unit's suffix.
    pub fn to_string(&self) -> (s: String)
        ensures
            s@ == self@.text(),
            s@ == self@.value + self@.units.suffix_text(),
    {
        let mut s = self.value.clone();
        s.append(self.units.suffix());
        s
    }
}

/// The text of a length is its number, as written, and then the suffix of
/// its unit, which is one of `px`, `pt`, `em` and `rem`: nothing stands in
/// front of the number, between the two or behind the suffix.
pub proof fn lemma_length_text(length: LengthView)
    ensures
        length.text() == length.value + length.units.suffix_text(),
        length.value.is_prefix_of(length.text()),
        length.units.suffix_text().is_suffix_of(length.text()),
        length.text().len() == length.value.len() + length.units.suffix_text().len(),
        length.units.suffix_text() == "px"@ || length.units.suffix_text() == "pt"@
            || length.units.suffix_text() == "em"@ || length.units.suffix_text() == "rem"@,
{
    reveal_strlit("px");
    reveal_strlit("pt");
    reveal_strlit("em");
    reveal_strlit("rem");
    assert("px"@ =~= seq!['p', 'x']);
    assert("pt"@ =~= seq!['p', 't']);
    assert("em"@ =~= seq!['e', 'm']);
    assert("rem"@ =~= seq!['r', 'e', 'm']);
}

/// The text of a length whose value is a number holds no space.
pub proof fn lemma_number_length_has_no_space(length: LengthView)
    requires
        length.is_number(),
    ensures
        has_no_space(length.text()),
{
    lemma_number_text_has_no_space(length.value);
}

impl<'a> From<(&'a str, LengthUnit)> for Length {
    /// The length of a number, given as written, in a unit.
    fn from(pair: (&'a str, LengthUnit)) -> (length: Self)
        ensures
            length@ == (LengthView { value: pair.0@, units: pair.1 }),
    {
        Length::new(pair.0, pair.1)
    }
}

impl<'a> vstd::std_specs::convert::FromSpecImpl<(&'a str, LengthUnit)> for Length {
    open spec fn obeys_from_spec() -> bool {
        false
    }

    open spec fn from_spec(pair: (&'a str, LengthUnit)) -> Self {
        arbitrary()
    }
}

impl<'a> From<&'a str> for Length {
    /// The length of a bare number, given as written: so many pixels.
    fn from(value: &'a str) -> (length: Self)
        ensures
            length@ == LengthView::bare(value@),
    {
        Length::new(value, LengthUnit::Px)
    }
}

impl<'a> vstd::std_specs::convert::FromSpecImpl<&'a str> for Length {
    open spec fn obeys_from_spec() -> bool {
        false
    }

    open spec fn from_spec(value: &'a str) -> Self {
        arbitrary()
    }
}

impl From<i32> for Length {
    /// The length of a whole number of pixels.
    fn from(value: i32) -> (length: Self)
        ensures
            length@ == LengthView::bare(signed_decimal_text(value as int)),
            length@.is_number(),
    {
        proof {
            lemma_signed_decimal_text_is_number(value as int);
        }
        let text = signed_decimal_string(value);
        Length { value: text, units: LengthUnit::Px }
    }
}

impl vstd::std_specs::convert::FromSpecImpl<i32> for Length {
    open spec fn obeys_from_spec() -> bool {
        false
    }

    open spec fn from_spec(value: i32) -> Self {
        arbitrary()
    }
}

/// The canonical texts of `items`, in order.
pub open spec fn length_texts(items: Seq<LengthView>) -> Seq<Seq<char>> {
    Seq::new(items.len(), |i: int| items[i].text())
}

/// The text of a list of lengths: the texts of its lengths, in order, with a
/// single space between neighbours.
pub open spec fn lengths_text(items: Seq<LengthView>) -> Seq<char> {
    spaced(length_texts(items))
}

/// What the lengths of `items` stand for, in order.
pub open spec fn length_views(items: Seq<Length>) -> Seq<LengthView> {
    Seq::new(items.len(), |i: int| items[i]@)
}

/// An ordered list of lengths, as the value of a property that takes
/// several.
#[derive(Debug)]
pub struct Lengths(Vec<Length>);

impl View for Lengths {
    type V = Seq<LengthView>;

    closed spec fn view(&self) -> Seq<LengthView> {
        length_views(self.0@)
    }
}

impl Lengths {
    /// The list of `items`, in their order.
    pub fn new(items: Vec<Length>) -> (list: Self)
        ensures
            list@ == length_views(items@),
    {
        Lengths(items)
    }

    /// The text of the list: the texts of its lengths, in order, with a
    /// single space between neighbours; the empty text for the empty list.
    pub fn to_string(&self) -> (s: String)
        ensures
            s@ == lengths_text(self@),
            self@.len() == 0 ==> s@ == Seq::<char>::empty(),
    {
        let mut rendered: Vec<String> = Vec::new();
        let mut i: usize = 0;
        while i < self.0.len()
            invariant
                i <= self.0.len(),
                rendered@.len() == i,
                forall|j: int| 0 <= j < i ==> (#[trigger] rendered@[j])@ == self@[j].text(),
            decreases self.0.len() - i,
        {
            let item = self.0[i].to_string();
            rendered.push(item);
            i = i + 1;
        }
        assert(texts(rendered@) =~= length_texts(self@));
        join_spaced(&rendered)
    }
}

/// The text of the empty list is empty. The text of a list of `n > 0`
/// lengths holds the text of each of them, unchanged and in the order of
/// the list, with exactly one space in front of each but the first: `n`
/// segments and `n - 1` spaces, and nothing else.
pub proof fn lemma_lengths_text(items: Seq<LengthView>)
    ensures
        items.len() == 0 ==> lengths_text(items) == Seq::<char>::empty(),
        items.len() > 0 ==> lengths_text(items).len() == segment_start(
            length_texts(items),
            items.len() as int,
        ) - 1,
        forall|i: int|
            #![trigger items[i]]
            0 <= i < items.len() ==> {
                let start = segment_start(length_texts(items), i);
                &&& 0 <= start
                &&& start + items[i].text().len() <= lengths_text(items).len()
                &&& lengths_text(items).subrange(start, start + items[i].text().len())
                    == items[i].text()
                &&& i > 0 ==> lengths_text(items)[start - 1] == ' '
            },
{
    let parts = length_texts(items);
    lemma_spaced_layout(parts);
    assert forall|i: int| #![trigger items[i]] 0 <= i < items.len() implies {
        let start = segment_start(parts, i);
        &&& 0 <= start
        &&& start + items[i].text().len() <= lengths_text(items).len()
        &&& lengths_text(items).subrange(start, start + items[i].text().len()) == items[i].text()
        &&& i > 0 ==> lengths_text(items)[start - 1] == ' '
    } by {
        assert(parts[i] == items[i].text());
    }
}

/// The text of a list of `n > 0` lengths whose values are numbers holds
/// exactly `n - 1` spaces, the ones between the lengths; the text of the
/// empty list holds none.
pub proof fn lemma_number_lengths_text(items: Seq<LengthView>)
    requires
        forall|i: int| 0 <= i < items.len() ==> (#[trigger] items[i]).is_number(),
    ensures
        items.len() == 0 ==> count_spaces(lengths_text(items)) == 0,
        items.len() > 0 ==> count_spaces(lengths_text(items)) == items.len() - 1,
{
    let parts = length_texts(items);
    assert forall|i: int| 0 <= i < parts.len() implies has_no_space(#[trigger] parts[i]) by {
        lemma_number_length_has_no_space(items[i]);
    }
    lemma_spaced_count(parts);
}

/// The error of [`Color::parse`]: the text is not a color in any notation
/// of style sheets.
#[derive(Debug, Clone, Copy, PartialEq, Eq, Structural)]
pub struct ParseError;

/// The error type of `csscolorparser::parse`; nothing is read from it.
#[verifier::external_type_specification]
#[verifier::external_body]
pub struct ExParseColorError(csscolorparser::ParseColorError);

/// The color that `text` denotes in a style sheet, as its red, green, blue
/// and alpha channels of eight bits each, or `None` where `text` denotes no
/// color: what `csscolorparser::parse` makes of `text`, read through
/// `csscolorparser::Color::to_rgba8`.
pub uninterp spec fn css_rgba8(text: Seq<char>) -> Option<(u8, u8, u8, u8)>;

/// Calls `csscolorparser::parse` on `text` and reads the channels of the
/// color it returns with `csscolorparser::Color::to_rgba8`. The contract
/// claims only that the outcome depends on `text` alone: the channels, or
/// the failure, are what `css_rgba8` names. Neither function panics: the
/// parser slices its input at ASCII positions only, and the channels are
/// made by saturating casts.
#[verifier::external_body]
fn parse_rgba8(text: &str) -> (channels: Result<(u8, u8, u8, u8), csscolorparser::ParseColorError>)
    ensures
        css_rgba8(text@) == match channels {
            Ok(rgba) => Some(rgba),
            Err(_) => None,
        },
{
    match csscolorparser::parse(text) {
        Ok(color) => {
            let [r, g, b, a] = color.to_rgba8();
            Ok((r, g, b, a))
        },
        Err(error) => Err(error),
    }
}

/// A color, as its red, green, blue and alpha channels of eight bits each.
#[derive(Debug, Clone, Copy, PartialEq, Eq, Structural)]
pub struct Color {
    /// Red.
    pub r: u8,
    /// Green.
    pub g: u8,
    /// Blue.
    pub b: u8,
    /// Alpha: 255 is opaque.
    pub a: u8,
}

impl Color {
    /// The color of the four channels `rgba`.
    pub open spec fn of(rgba: (u8, u8, u8, u8)) -> Color {
        Color { r: rgba.0, g: rgba.1, b: rgba.2, a: rgba.3 }
    }

    /// What [`Color::parse`] returns for `text`.
    pub open spec fn parsed(text: Seq<char>) -> Result<Color, ParseError> {
        match css_rgba8(text) {
            Some(rgba) => Ok(Color::of(rgba)),
            None => Err(ParseError),
        }
    }

    /// The hexadecimal text of the color: `#rrggbb` where it is opaque,
    /// `#rrggbbaa` where it is not.
    pub open spec fn hex_text(self) -> Seq<char> {
        seq!['#'] + hex_pair(self.r) + hex_pair(self.g) + hex_pair(self.b) + if self.a < 255 {
            hex_pair(self.a)
        } else {
            Seq::empty()
        }
    }

    /// The color of the given channels.
    pub fn from_rgba8(r: u8, g: u8, b: u8, a: u8) -> (color: Self)
        ensures
            color == Color::of((r, g, b, a)),
    {
        Color { r, g, b, a }
    }

    /// Reads a color in any notation of style sheets: a name, hexadecimal
    /// digits, or a function such as `rgb()` or `hsl()`. Fails with
    /// [`ParseError`] where `text` is none of these.
    pub fn parse(text: &str) -> (color: Result<Self, ParseError>)
        ensures
            color == Color::parsed(text@),
    {
        match parse_rgba8(text) {
            Ok(rgba) => Ok(Color::from_rgba8(rgba.0, rgba.1, rgba.2, rgba.3)),
            Err(_) => Err(ParseError),
        }
    }

    /// The color in hexadecimal, whatever notation it was read from.
    pub fn to_string(&self) -> (s: String)
        ensures
            s@ == self.hex_text(),
    {
        proof {
            reveal_strlit("#");
            assert("#"@ =~= seq!['#']);
        }
        let mut s = String::from_str("#");
        s.append(hex_pair_string(self.r).as_str());
        s.append(hex_pair_string(self.g).as_str());
        s.append(hex_pair_string(self.b).as_str());
        if self.a < 255 {
            s.append(hex_pair_string(self.a).as_str());
        }
        s
    }
}

/// The text of a color is `#` and then six hexadecimal digits, or eight
/// where the color is not opaque.
pub proof fn lemma_hex_text_shape(color: Color)
    ensures
        color.hex_text().len() == if color.a < 255 { 9int } else { 7int },
        color.hex_text()[0] == '#',
        forall|i: int|
            1 <= i < color.hex_text().len() ==> is_digit(#[trigger] color.hex_text()[i], 16),
{
    let text = color.hex_text();
    assert forall|i: int| 1 <= i < text.len() implies is_digit(#[trigger] text[i], 16) by {
        let channel = if i <= 2 {
            color.r
        } else if i <= 4 {
            color.g
        } else if i <= 6 {
            color.b
        } else {
            color.a
        };
        let d = if i % 2 == 1 {
            channel as int / 16
        } else {
            channel as int % 16
        };
        assert(text[i] == digit(d));
    }
}

/// What a [`StyleConstants`] stands for.
pub struct StyleConstantsView {
    /// The size of the smallest error message.
    pub error_size_smaller: LengthView,
    /// The size of a small error message.
    pub error_size_small: LengthView,
    /// The size of an error message of medium size.
    pub error_size_medium: LengthView,
    /// The size of a large error message.
    pub error_size_large: LengthView,
    /// The size of the largest error message.
    pub error_size_larger: LengthView,
    /// The color of error messages.
    pub error_color: Color,
    /// The small padding.
    pub padding_small: LengthView,
    /// The medium padding.
    pub padding_medium: LengthView,
    /// The large padding.
    pub padding_large: LengthView,
}

impl StyleConstantsView {
    /// The constants of the default theme: error messages of 0.8, 0.9, 1,
    /// 1.25 and 1.5 em in the color `#cf0000`, and paddings of 4, 8 and 16
    /// pixels.
    pub open spec fn defaults() -> StyleConstantsView {
        StyleConstantsView {
            error_size_smaller: LengthView { value: "0.8"@, units: LengthUnit::Em },
            error_size_small: LengthView { value: "0.9"@, units: LengthUnit::Em },
            error_size_medium: LengthView { value: "1"@, units: LengthUnit::Em },
            error_size_large: LengthView { value: "1.25"@, units: LengthUnit::Em },
            error_size_larger: LengthView { value: "1.5"@, units: LengthUnit::Em },
            error_color: Color { r: 0xcf, g: 0x00, b: 0x00, a: 0xff },
            padding_small: LengthView { value: "4"@, units: LengthUnit::Px },
            padding_medium: LengthView { value: "8"@, units: LengthUnit::Px },
            padding_large: LengthView { value: "16"@, units: LengthUnit::Px },
        }
    }

    /// The padding of a form: the medium padding above and below, none at
    /// the sides.
    pub open spec fn form_padding(self) -> Seq<LengthView> {
        seq![self.padding_medium, LengthView::bare(signed_decimal_text(0))]
    }

    /// Whether the value of every length among the constants is a number.
    pub open spec fn holds_numbers(self) -> bool {
        &&& self.error_size_smaller.is_number()
        &&& self.error_size_small.is_number()
        &&& self.error_size_medium.is_number()
        &&& self.error_size_large.is_number()
        &&& self.error_size_larger.is_number()
        &&& self.padding_small.is_number()
        &&& self.padding_medium.is_number()
        &&& self.padding_large.is_number()
    }
}

/// A text of the digits `whole`, a point and the digits `fraction` is the
/// text of a number.
proof fn lemma_point_number(s: Seq<char>, whole: Seq<char>, fraction: Seq<char>)
    requires
        is_decimal_digits(whole),
        is_decimal_digits(fraction),
        s =~= whole + seq!['.'] + fraction,
    ensures
        is_number_text(s),
{
    let point = whole.len() as int;
    assert(s[point] == '.');
    assert(s.subrange(0, point) =~= whole);
    assert(s.subrange(point + 1, s.len() as int) =~= fraction);
}

/// The lengths of the default theme are numbers.
pub proof fn lemma_defaults_hold_numbers()
    ensures
        StyleConstantsView::defaults().holds_numbers(),
{
    reveal_strlit("0.8");
    reveal_strlit("0.9");
    reveal_strlit("1");
    reveal_strlit("1.25");
    reveal_strlit("1.5");
    reveal_strlit("4");
    reveal_strlit("8");
    reveal_strlit("16");
    assert('0' == digit(0) && '1' == digit(1) && '2' == digit(2) && '4' == digit(4));
    assert('5' == digit(5) && '6' == digit(6) && '8' == digit(8) && '9' == digit(9));
    lemma_point_number("0.8"@, seq!['0'], seq!['8']);
    lemma_point_number("0.9"@, seq!['0'], seq!['9']);
    lemma_point_number("1.25"@, seq!['1'], seq!['2', '5']);
    lemma_point_number("1.5"@, seq!['1'], seq!['5']);
    assert(is_decimal_digits("1"@));
    assert(is_decimal_digits("4"@));
    assert(is_decimal_digits("8"@));
    assert(is_decimal_digits("16"@));
}

/// The padding of a form whose medium padding is a number renders as two
/// lengths with exactly one space between them.
pub proof fn lemma_form_padding_text(constants: StyleConstantsView)
    requires
        constants.padding_medium.is_number(),
    ensures
        count_spaces(lengths_text(constants.form_padding())) == 1,
{
    lemma_signed_decimal_text_is_number(0);
    lemma_number_lengths_text(constants.form_padding());
}

/// The visual constants that every component reads.
#[derive(Debug)]
pub struct StyleConstants {
    /// The size of the smallest error message.
    pub error_size_smaller: Length,
    /// The size of a small error message.
    pub error_size_small: Length,
    /// The size of an error message of medium size.
    pub error_size_medium: Length,
    /// The size of a large error message.
    pub error_size_large: Length,
    /// The size of the largest error message.
    pub error_size_larger: Length,
    /// The color of error messages.
    pub error_color: Color,
    /// The small padding.
    pub padding_small: Length,
    /// The medium padding.
    pub padding_medium: Length,
    /// The large padding.
    pub padding_large: Length,
}

impl View for StyleConstants {
    type V = StyleConstantsView;

    open spec fn view(&self) -> StyleConstantsView {
        StyleConstantsView {
            error_size_smaller: self.error_size_smaller@,
            error_size_small: self.error_size_small@,
            error_size_medium: self.error_size_medium@,
            error_size_large: self.error_size_large@,
            error_size_larger: self.error_size_larger@,
            error_color: self.error_color,
            padding_small: self.padding_small@,
            padding_medium: self.padding_medium@,
            padding_large: self.padding_large@,
        }
    }
}

impl Default for StyleConstants {
    /// The constants of the default theme.
    fn default() -> (constants: Self)
        ensures
            constants@ == StyleConstantsView::defaults(),
    {
        StyleConstants {
            error_size_smaller: Length::new("0.8", LengthUnit::Em),
            error_size_small: Length::new("0.9", LengthUnit::Em),
            error_size_medium: Length::new("1", LengthUnit::Em),
            error_size_large: Length::new("1.25", LengthUnit::Em),
            error_size_larger: Length::new("1.5", LengthUnit::Em),
            error_color: Color::from_rgba8(0xcf, 0x00, 0x00, 0xff),
            padding_small: Length::new("4", LengthUnit::Px),
            padding_medium: Length::new("8", LengthUnit::Px),
            padding_large: Length::new("16", LengthUnit::Px),
        }
    }
}

impl Clone for StyleConstants {
    fn clone(&self) -> (copy: Self)
        ensures
            copy == *self,
    {
        StyleConstants {
            error_size_smaller: self.error_size_smaller.clone(),
            error_size_small: self.error_size_small.clone(),
            error_size_medium: self.error_size_medium.clone(),
            error_size_large: self.error_size_large.clone(),
            error_size_larger: self.error_size_larger.clone(),
            error_color: self.error_color,
            padding_small: self.padding_small.clone(),
            padding_medium: self.padding_medium.clone(),
            padding_large: self.padding_large.clone(),
        }
    }
}

impl StyleConstants {
    /// The padding of a form, as the two values of the short notation: the
    /// medium padding above and below, none at the sides.
    pub fn form_padding(&self) -> (padding: Lengths)
        ensures
            padding@ == self@.form_padding(),
    {
        let mut items: Vec<Length> = Vec::new();
        items.push(self.padding_medium.clone());
        items.push(Length::from(0i32));
        Lengths::new(items)
    }
}

} // verus!

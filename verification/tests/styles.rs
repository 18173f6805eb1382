use dioxico::{Color, Length, LengthUnit, Lengths, ParseError, StyleConstants};

fn float_length(value: f64, units: LengthUnit) -> Length {
    Length::new(&value.to_string(), units)
}

#[test]
fn length_unit_defaults_to_pixels() {
    assert_eq!(LengthUnit::default(), LengthUnit::Px);
}

#[test]
fn length_unit_suffixes() {
    assert_eq!(LengthUnit::Px.to_string(), "px");
    assert_eq!(LengthUnit::Pt.to_string(), "pt");
    assert_eq!(LengthUnit::Em.to_string(), "em");
    assert_eq!(LengthUnit::Rem.to_string(), "rem");
    assert_eq!(LengthUnit::Px.suffix(), "px");
    assert_eq!(LengthUnit::Pt.suffix(), "pt");
    assert_eq!(LengthUnit::Em.suffix(), "em");
    assert_eq!(LengthUnit::Rem.suffix(), "rem");
}

#[test]
fn length_renders_value_then_suffix() {
    assert_eq!(Length::new("8", LengthUnit::Px).to_string(), "8px");
    assert_eq!(Length::new("12", LengthUnit::Pt).to_string(), "12pt");
    assert_eq!(Length::new("1.25", LengthUnit::Em).to_string(), "1.25em");
    assert_eq!(Length::new("2", LengthUnit::Rem).to_string(), "2rem");
}

#[test]
fn length_of_a_float_renders_as_the_float_is_written() {
    assert_eq!(float_length(8.0, LengthUnit::Px).to_string(), "8px");
    assert_eq!(float_length(1.0, LengthUnit::Em).to_string(), "1em");
    assert_eq!(float_length(0.8, LengthUnit::Em).to_string(), "0.8em");
    assert_eq!(float_length(1.25, LengthUnit::Rem).to_string(), "1.25rem");
    assert_eq!(float_length(0.0, LengthUnit::Pt).to_string(), "0pt");
}

#[test]
fn length_value_is_not_checked() {
    assert_eq!(float_length(-3.5, LengthUnit::Px).to_string(), "-3.5px");
    assert_eq!(float_length(f64::NAN, LengthUnit::Px).to_string(), "NaNpx");
    assert_eq!(float_length(f64::INFINITY, LengthUnit::Em).to_string(), "infem");
    assert_eq!(Length::new("", LengthUnit::Px).to_string(), "px");
    assert_eq!(Length::new("1 2", LengthUnit::Px).to_string(), "1 2px");
}

#[test]
fn lengths_of_numbers_render_with_one_space_less_than_lengths() {
    let numbers = [0.0f64, 8.0, 0.8, 1.25, -3.5, 1.0e21, 1.0e-7, f64::NAN, f64::INFINITY, f64::NEG_INFINITY];
    for n in 0..numbers.len() + 1 {
        let mut items = Vec::new();
        for value in &numbers[..n] {
            items.push(float_length(*value, LengthUnit::Em));
        }
        items.push(Length::from(i32::MIN));
        let text = Lengths::new(items).to_string();
        assert_eq!(text.matches(' ').count(), n);
        assert_eq!(text.split(' ').count(), n + 1);
    }
}

#[test]
fn length_from_pair() {
    assert_eq!(Length::from(("0.9", LengthUnit::Em)).to_string(), "0.9em");
    assert_eq!(Length::from(("3", LengthUnit::Pt)).to_string(), "3pt");
}

#[test]
fn length_from_bare_number_is_in_pixels() {
    assert_eq!(Length::from("2.5").to_string(), "2.5px");
    assert_eq!(Length::from(&*(4.0f64).to_string()).to_string(), "4px");
}

#[test]
fn length_from_integer_is_in_pixels() {
    assert_eq!(Length::from(0).to_string(), "0px");
    assert_eq!(Length::from(16).to_string(), "16px");
    assert_eq!(Length::from(-4).to_string(), "-4px");
    assert_eq!(Length::from(i32::MIN).to_string(), "-2147483648px");
    assert_eq!(Length::from(i32::MAX).to_string(), "2147483647px");
}

#[test]
fn length_clone_is_equal() {
    let length = Length::new("1.5", LengthUnit::Em);
    let copy = length.clone();
    assert_eq!(copy, length);
    assert_eq!(copy.to_string(), "1.5em");
    assert_eq!(length.to_string(), copy.to_string());
}

#[test]
fn lengths_are_compared_by_value() {
    assert_eq!(Length::new("8", LengthUnit::Px), Length::from(8));
    assert_eq!(Length::new("8", LengthUnit::Px), Length::from("8"));
    assert_eq!(Length::new("8", LengthUnit::Pt), Length::from(("8", LengthUnit::Pt)));
    assert_ne!(Length::new("8", LengthUnit::Px), Length::new("8", LengthUnit::Pt));
    assert_ne!(Length::new("8", LengthUnit::Px), Length::new("9", LengthUnit::Px));
}

#[test]
fn length_holds_its_number_and_its_unit() {
    let length = Length::new("0.8", LengthUnit::Em);
    assert_eq!(length.value(), "0.8");
    assert_eq!(length.units(), LengthUnit::Em);
    assert_eq!(Length::from(-12).value(), "-12");
    assert_eq!(Length::from(-12).units(), LengthUnit::Px);
}

#[test]
fn lengths_of_nothing_render_empty() {
    assert_eq!(Lengths::new(Vec::new()).to_string(), "");
}

#[test]
fn lengths_of_one_render_without_space() {
    assert_eq!(Lengths::new(vec![Length::from(8)]).to_string(), "8px");
}

#[test]
fn lengths_render_in_order_with_single_spaces() {
    let list = Lengths::new(vec![
        Length::new("1", LengthUnit::Em),
        Length::from(0),
        Length::new("0.5", LengthUnit::Rem),
        Length::new("12", LengthUnit::Pt),
    ]);
    assert_eq!(list.to_string(), "1em 0px 0.5rem 12pt");
    let text = list.to_string();
    assert_eq!(text.split(' ').count(), 4);
    assert_eq!(text.matches(' ').count(), 3);
}

#[test]
fn color_notations_render_to_the_same_hex() {
    assert_eq!(Color::parse("red").unwrap().to_string(), "#ff0000");
    assert_eq!(Color::parse("#ff0000").unwrap().to_string(), "#ff0000");
    assert_eq!(Color::parse("rgb(255,0,0)").unwrap().to_string(), "#ff0000");
}

#[test]
fn color_notations_give_the_same_color() {
    let red = Color::from_rgba8(255, 0, 0, 255);
    assert_eq!(Color::parse("red"), Ok(red));
    assert_eq!(Color::parse("#ff0000"), Ok(red));
    assert_eq!(Color::parse("rgb(255,0,0)"), Ok(red));
    assert_eq!(Color::parse("#f00"), Ok(red));
    assert_eq!(Color::parse("hsl(360deg,100%,50%)"), Ok(red));
    assert_eq!(Color::parse("  RED "), Ok(red));
}

#[test]
fn color_of_unknown_text_is_a_parse_error() {
    assert_eq!(Color::parse("not-a-color"), Err(ParseError));
    assert!(Color::parse("not-a-color").is_err());
}

#[test]
fn color_parse_errors() {
    assert_eq!(Color::parse(""), Err(ParseError));
    assert_eq!(Color::parse("#ff"), Err(ParseError));
    assert_eq!(Color::parse("#gggggg"), Err(ParseError));
    assert_eq!(Color::parse("rgb(1,2)"), Err(ParseError));
    assert_eq!(Color::parse("rgb(a,b,c)"), Err(ParseError));
    assert_eq!(Color::parse("hsl(0,0)"), Err(ParseError));
    assert_eq!(Color::parse("cmyk(0,0,0,0)"), Err(ParseError));
}

#[test]
fn color_parse_does_not_hand_the_text_back() {
    let color = Color::parse("rebeccapurple").unwrap();
    assert_eq!(color, Color::from_rgba8(102, 51, 153, 255));
    assert_eq!(color.to_string(), "#663399");
}

#[test]
fn color_that_is_not_opaque_renders_eight_digits() {
    assert_eq!(Color::parse("#ff00007f").unwrap().to_string(), "#ff00007f");
    assert_eq!(Color::parse("transparent").unwrap().to_string(), "#00000000");
    assert_eq!(Color::parse("rgba(0,255,0,0.5)").unwrap().to_string(), "#00ff0080");
    assert_eq!(Color::from_rgba8(1, 2, 3, 254).to_string(), "#010203fe");
    assert_eq!(Color::from_rgba8(1, 2, 3, 0).to_string(), "#01020300");
}

#[test]
fn color_that_is_opaque_renders_six_digits() {
    assert_eq!(Color::from_rgba8(0, 0, 0, 255).to_string(), "#000000");
    assert_eq!(Color::from_rgba8(1, 2, 3, 255).to_string(), "#010203");
    assert_eq!(Color::from_rgba8(0xab, 0xcd, 0xef, 255).to_string(), "#abcdef");
    assert_eq!(Color::parse("#ABCDEF").unwrap().to_string(), "#abcdef");
}

#[test]
fn color_from_rgba8_keeps_the_channels() {
    let color = Color::from_rgba8(10, 20, 30, 40);
    assert_eq!((color.r, color.g, color.b, color.a), (10, 20, 30, 40));
}

#[test]
fn color_renders_as_the_parser_does() {
    let samples = [
        "red",
        "gold",
        "transparent",
        "#0f0",
        "#0f08",
        "#123456",
        "#12345678",
        "abcdef",
        "rgb(0% 100% 0%)",
        "rgb(12, 34, 56)",
        "rgb(0 255 0 / 50%)",
        "rgba(10,20,30,0.25)",
        "hsl(120,100%,50%)",
        "hsl(0.3333turn 100% 50%)",
        "hsla(200, 40%, 60%, 30%)",
        "hwb(120 0% 0%)",
        "hwb(40 20% 30% / 20%)",
        "hsv(120,100%,100%)",
        "hsv(33deg 50% 75% / 99%)",
    ];
    for text in samples {
        let theirs = csscolorparser::parse(text).unwrap();
        let ours = Color::parse(text).unwrap();
        assert_eq!(ours.to_string(), theirs.to_hex_string(), "{}", text);
        assert_eq!([ours.r, ours.g, ours.b, ours.a], theirs.to_rgba8(), "{}", text);
    }
}

#[test]
fn color_fails_where_the_parser_fails() {
    for text in ["", "nothing", "#12", "#12345", "rgb()", "hsl(1,2,3,4,5)", "lab(1 2 3)", "(", ")("] {
        assert!(csscolorparser::parse(text).is_err(), "{}", text);
        assert_eq!(Color::parse(text), Err(ParseError), "{}", text);
    }
}

#[test]
fn default_constants_render_as_documented() {
    let constants = StyleConstants::default();
    assert_eq!(constants.padding_medium.to_string(), "8px");
    assert_eq!(constants.error_size_medium.to_string(), "1em");
    assert_eq!(constants.error_color.to_string(), "#cf0000");
}

#[test]
fn default_constants_hold_the_documented_values() {
    let constants = StyleConstants::default();
    assert_eq!(constants.error_size_smaller.to_string(), "0.8em");
    assert_eq!(constants.error_size_small.to_string(), "0.9em");
    assert_eq!(constants.error_size_medium.to_string(), "1em");
    assert_eq!(constants.error_size_large.to_string(), "1.25em");
    assert_eq!(constants.error_size_larger.to_string(), "1.5em");
    assert_eq!(constants.padding_small.to_string(), "4px");
    assert_eq!(constants.padding_medium.to_string(), "8px");
    assert_eq!(constants.padding_large.to_string(), "16px");
    assert_eq!(constants.error_color, Color::from_rgba8(0xcf, 0, 0, 0xff));
}

#[test]
fn default_constants_are_what_the_floats_render_to() {
    let constants = StyleConstants::default();
    let em = LengthUnit::Em;
    let px = LengthUnit::Px;
    assert_eq!(constants.error_size_smaller.to_string(), float_length(0.8, em).to_string());
    assert_eq!(constants.error_size_small.to_string(), float_length(0.9, em).to_string());
    assert_eq!(constants.error_size_medium.to_string(), float_length(1.0, em).to_string());
    assert_eq!(constants.error_size_large.to_string(), float_length(1.25, em).to_string());
    assert_eq!(constants.error_size_larger.to_string(), float_length(1.5, em).to_string());
    assert_eq!(constants.padding_small.to_string(), float_length(4.0, px).to_string());
    assert_eq!(constants.padding_medium.to_string(), float_length(8.0, px).to_string());
    assert_eq!(constants.padding_large.to_string(), float_length(16.0, px).to_string());
}

#[test]
fn default_error_color_is_the_color_of_its_hex_text() {
    assert_eq!(Color::parse("#cf0000"), Ok(StyleConstants::default().error_color));
}

#[test]
fn form_padding_of_default_constants() {
    assert_eq!(StyleConstants::default().form_padding().to_string(), "8px 0px");
}

#[test]
fn form_padding_follows_the_medium_padding() {
    let mut constants = StyleConstants::default();
    constants.padding_medium = Length::new("0.5", LengthUnit::Rem);
    assert_eq!(constants.form_padding().to_string(), "0.5rem 0px");
}

#[test]
fn style_constants_clone_renders_alike() {
    let constants = StyleConstants::default();
    let copy = constants.clone();
    assert_eq!(copy.padding_large.to_string(), "16px");
    assert_eq!(copy.padding_large, constants.padding_large);
    assert_eq!(copy.error_size_smaller, constants.error_size_smaller);
    assert_eq!(copy.error_color, constants.error_color);
    assert_eq!(copy.form_padding().to_string(), constants.form_padding().to_string());
}

//! The colours of the theme as numbers.

use crate::config::ThemeColors;
use crate::utils::text::{hex_byte, hex_byte_of, is_piece, piece_of, same_text, text_piece};
use vstd::prelude::*;

verus! {

/// A colour: how much red, green and blue.
#[derive(Debug, Clone, Copy, PartialEq, Eq, Structural)]
pub struct Rgb {
    pub red: u8,
    pub green: u8,
    pub blue: u8,
}

/// White.
pub open spec fn white() -> Rgb {
    Rgb { red: 255, green: 255, blue: 255 }
}

/// One component of a colour: the two bytes of the text from `from` on, read
/// as a hexadecimal number.
pub open spec fn component_of(text: Seq<char>, from: int) -> Option<u8> {
    if is_piece(text, from, from + 2) {
        hex_byte_of(piece_of(text, from, from + 2))
    } else {
        None
    }
}

/// The colour that a text stands for: after its first byte come red, green
/// and blue, each in two bytes.
pub open spec fn color_of(text: Seq<char>) -> Option<Rgb> {
    match (component_of(text, 1), component_of(text, 3), component_of(text, 5)) {
        (Some(red), Some(green), Some(blue)) => Some(Rgb { red, green, blue }),
        _ => None,
    }
}

/// One component of a colour.
fn parse_component(text: &str, from: usize) -> (component: Option<u8>)
    requires
        from <= 5,
    ensures
        component == component_of(text@, from as int),
{
    match text_piece(text, from, from + 2) {
        Some(piece) => hex_byte(piece),
        None => None,
    }
}

/// The colour that a text stands for.
pub fn parse_color(text: &str) -> (color: Option<Rgb>)
    ensures
        color == color_of(text@),
{
    let red = parse_component(text, 1);
    let green = parse_component(text, 3);
    let blue = parse_component(text, 5);
    match (red, green, blue) {
        (Some(red), Some(green), Some(blue)) => Some(Rgb { red, green, blue }),
        _ => None,
    }
}

/// The text of the theme colour of a name, if the theme has a colour of that
/// name.
pub open spec fn named_color(colors: ThemeColors, name: Seq<char>) -> Option<Seq<char>> {
    if name == "primary"@ {
        Some(colors.primary@)
    } else if name == "secondary"@ {
        Some(colors.secondary@)
    } else if name == "background"@ {
        Some(colors.background@)
    } else if name == "surface"@ {
        Some(colors.surface@)
    } else if name == "text"@ {
        Some(colors.text@)
    } else if name == "accent"@ {
        Some(colors.accent@)
    } else if name == "error"@ {
        Some(colors.error@)
    } else if name == "warning"@ {
        Some(colors.warning@)
    } else if name == "success"@ {
        Some(colors.success@)
    } else {
        None
    }
}

/// The colour of a name in a theme: white for a name that the theme does
/// not have, nothing where the theme's text is no colour.
pub open spec fn theme_color(colors: ThemeColors, name: Seq<char>) -> Option<Rgb> {
    match named_color(colors, name) {
        Some(text) => color_of(text),
        None => Some(white()),
    }
}

/// The colour of a name in a theme.
pub fn get_color(colors: &ThemeColors, name: &str) -> (color: Option<Rgb>)
    ensures
        color == theme_color(*colors, name@),
{
    if same_text(name, "primary") {
        parse_color(colors.primary.as_str())
    } else if same_text(name, "secondary") {
        parse_color(colors.secondary.as_str())
    } else if same_text(name, "background") {
        parse_color(colors.background.as_str())
    } else if same_text(name, "surface") {
        parse_color(colors.surface.as_str())
    } else if same_text(name, "text") {
        parse_color(colors.text.as_str())
    } else if same_text(name, "accent") {
        parse_color(colors.accent.as_str())
    } else if same_text(name, "error") {
        parse_color(colors.error.as_str())
    } else if same_text(name, "warning") {
        parse_color(colors.warning.as_str())
    } else if same_text(name, "success") {
        parse_color(colors.success.as_str())
    } else {
        Some(Rgb { red: 255, green: 255, blue: 255 })
    }
}

} // verus!

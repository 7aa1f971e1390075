//! Colours and text styles.
//!
//! A colour is ratatui's own; a style is what this game sets of a cell: the two
//! colours, each of which may be left as it is, and whether the text is bold.

use ratatui::style::Color;
use vstd::prelude::*;

verus! {

/// The colour enum of ratatui. All of its variants hold plain integers, so nothing
/// is hidden: a colour is the variant that it is.
#[verifier::external_type_specification]
pub struct ExColor(Color);

/// What is set of a cell besides its symbol.
#[derive(Clone, Copy)]
pub struct Style {
    pub fg: Option<Color>,
    pub bg: Option<Color>,
    pub bold: bool,
}

impl Style {
    /// The style that changes nothing.
    #[verifier::allow_in_spec]
    pub fn plain() -> (s: Style)
        returns
            (Style { fg: None, bg: None, bold: false }),
    {
        Style { fg: None, bg: None, bold: false }
    }

    /// The same style with a foreground colour.
    #[verifier::allow_in_spec]
    pub fn fg(self, c: Color) -> (s: Style)
        returns
            (Style { fg: Some(c), bg: self.bg, bold: self.bold }),
    {
        Style { fg: Some(c), bg: self.bg, bold: self.bold }
    }

    /// The same style with a background colour.
    #[verifier::allow_in_spec]
    pub fn bg(self, c: Color) -> (s: Style)
        returns
            (Style { fg: self.fg, bg: Some(c), bold: self.bold }),
    {
        Style { fg: self.fg, bg: Some(c), bold: self.bold }
    }

    /// The same style, bold.
    #[verifier::allow_in_spec]
    pub fn bold(self) -> (s: Style)
        returns
            (Style { fg: self.fg, bg: self.bg, bold: true }),
    {
        Style { fg: self.fg, bg: self.bg, bold: true }
    }
}

/// A colour by its three components.
#[verifier::allow_in_spec]
pub fn rgb(r: u8, g: u8, b: u8) -> (c: Color)
    returns
        (Color::Rgb(r, g, b)),
{
    Color::Rgb(r, g, b)
}

/// The ball.
#[verifier::allow_in_spec]
pub fn ball_color() -> (c: Color)
    returns
        (Color::Rgb(228, 255, 64)),
{
    Color::Rgb(228, 255, 64)
}

/// The singles lines.
#[verifier::allow_in_spec]
pub fn line_color() -> (c: Color)
    returns
        (Color::Rgb(240, 246, 255)),
{
    Color::Rgb(240, 246, 255)
}

/// The ground around the court.
#[verifier::allow_in_spec]
pub fn ground_color() -> (c: Color)
    returns
        (Color::Rgb(13, 17, 26)),
{
    Color::Rgb(13, 17, 26)
}

/// The wall behind the far baseline.
#[verifier::allow_in_spec]
pub fn wall_color() -> (c: Color)
    returns
        (Color::Rgb(24, 34, 64)),
{
    Color::Rgb(24, 34, 64)
}

/// The player.
#[verifier::allow_in_spec]
pub fn you_color() -> (c: Color)
    returns
        (Color::Rgb(255, 122, 92)),
{
    Color::Rgb(255, 122, 92)
}

/// The computer.
#[verifier::allow_in_spec]
pub fn cpu_color() -> (c: Color)
    returns
        (Color::Rgb(96, 200, 255)),
{
    Color::Rgb(96, 200, 255)
}

/// News that is good for the player.
#[verifier::allow_in_spec]
pub fn good_color() -> (c: Color)
    returns
        (Color::Rgb(140, 255, 170)),
{
    Color::Rgb(140, 255, 170)
}

/// News that is bad for the player.
#[verifier::allow_in_spec]
pub fn bad_color() -> (c: Color)
    returns
        (Color::Rgb(255, 110, 110)),
{
    Color::Rgb(255, 110, 110)
}

/// Neutral news.
#[verifier::allow_in_spec]
pub fn info_color() -> (c: Color)
    returns
        (Color::Rgb(255, 230, 120)),
{
    Color::Rgb(255, 230, 120)
}

} // verus!

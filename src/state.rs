//! Configuration, dimensions and the pixel palette.

use vstd::prelude::*;

verus! {

/// Side length, in pixels, of every chunk of the canvas.
pub const CHUNK_SIZE: u64 = 16;

/// Number of colors in the palette; the codes run from 0 to one less.
pub const PALETTE_SIZE: u8 = 16;

/// The fixed palette. Each color has an integer code, given by the order
/// of the variants, starting from 0.
#[derive(Clone, Copy, Debug, PartialEq, Eq, Structural, PartialOrd, Ord, Hash)]
pub enum Color {
    White,
    LightGray,
    Gray,
    Black,
    Pink,
    Red,
    Orange,
    Brown,
    Yellow,
    LightGreen,
    Green,
    Turquoise,
    LightBlue,
    Blue,
    Magenta,
    Purple,
}

/// The color whose code is `code`, if the palette has one.
pub open spec fn color_of_code(code: u8) -> Option<Color> {
    match code {
        0 => Some(Color::White),
        1 => Some(Color::LightGray),
        2 => Some(Color::Gray),
        3 => Some(Color::Black),
        4 => Some(Color::Pink),
        5 => Some(Color::Red),
        6 => Some(Color::Orange),
        7 => Some(Color::Brown),
        8 => Some(Color::Yellow),
        9 => Some(Color::LightGreen),
        10 => Some(Color::Green),
        11 => Some(Color::Turquoise),
        12 => Some(Color::LightBlue),
        13 => Some(Color::Blue),
        14 => Some(Color::Magenta),
        15 => Some(Color::Purple),
        _ => None,
    }
}

impl Color {
    pub open spec fn spec_code(&self) -> u8 {
        match self {
            Color::White => 0,
            Color::LightGray => 1,
            Color::Gray => 2,
            Color::Black => 3,
            Color::Pink => 4,
            Color::Red => 5,
            Color::Orange => 6,
            Color::Brown => 7,
            Color::Yellow => 8,
            Color::LightGreen => 9,
            Color::Green => 10,
            Color::Turquoise => 11,
            Color::LightBlue => 12,
            Color::Blue => 13,
            Color::Magenta => 14,
            Color::Purple => 15,
        }
    }

    /// The integer code of this color.
    #[verifier::when_used_as_spec(spec_code)]
    pub fn code(&self) -> (r: u8)
        ensures
            r == self.spec_code(),
            r < PALETTE_SIZE,
            color_of_code(r) == Some(*self),
    {
        match self {
            Color::White => 0,
            Color::LightGray => 1,
            Color::Gray => 2,
            Color::Black => 3,
            Color::Pink => 4,
            Color::Red => 5,
            Color::Orange => 6,
            Color::Brown => 7,
            Color::Yellow => 8,
            Color::LightGreen => 9,
            Color::Green => 10,
            Color::Turquoise => 11,
            Color::LightBlue => 12,
            Color::Blue => 13,
            Color::Magenta => 14,
            Color::Purple => 15,
        }
    }

    /// The color with the given code; `None` for a code outside the palette.
    pub fn from_code(code: u8) -> (r: Option<Color>)
        ensures
            r == color_of_code(code),
            r is Some <==> code < PALETTE_SIZE,
            r matches Some(c) ==> c.spec_code() == code,
    {
        match code {
            0 => Some(Color::White),
            1 => Some(Color::LightGray),
            2 => Some(Color::Gray),
            3 => Some(Color::Black),
            4 => Some(Color::Pink),
            5 => Some(Color::Red),
            6 => Some(Color::Orange),
            7 => Some(Color::Brown),
            8 => Some(Color::Yellow),
            9 => Some(Color::LightGreen),
            10 => Some(Color::Green),
            11 => Some(Color::Turquoise),
            12 => Some(Color::LightBlue),
            13 => Some(Color::Blue),
            14 => Some(Color::Magenta),
            15 => Some(Color::Purple),
            _ => None,
        }
    }
}

/// One cell of the canvas: its color and the caller who last painted it.
#[derive(Clone, Debug, PartialEq, Eq)]
pub struct PixelInfo {
    pub color: Color,
    pub painter: Option<String>,
}

/// A cell that nobody has painted: white, without a painter.
pub open spec fn blank_pixel() -> PixelInfo {
    PixelInfo { color: Color::White, painter: None }
}

impl PixelInfo {
    /// A white cell without a painter.
    pub fn blank() -> (r: PixelInfo)
        ensures
            r == blank_pixel(),
    {
        PixelInfo { color: Color::White, painter: None }
    }

    /// An equal cell, owned separately.
    pub fn duplicate(&self) -> (r: PixelInfo)
        ensures
            r == *self,
    {
        let painter = match &self.painter {
            Some(p) => Some(p.clone()),
            None => None,
        };
        PixelInfo { color: self.color, painter }
    }
}

/// Settings that only the administrator may change.
#[derive(Clone, Debug, PartialEq, Eq)]
pub struct Config {
    /// The caller allowed to change the configuration.
    pub admin_address: String,
    /// Number of heights a caller waits between two draws.
    pub cooldown: u64,
    /// Last height at which drawing is allowed; `None` for no limit.
    pub end_height: Option<u64>,
}

impl Config {
    /// An equal configuration, owned separately.
    pub fn duplicate(&self) -> (r: Config)
        ensures
            r == *self,
    {
        Config {
            admin_address: self.admin_address.clone(),
            cooldown: self.cooldown,
            end_height: self.end_height,
        }
    }
}

/// Extent of the canvas, counted in chunks.
#[derive(Clone, Copy, Debug, PartialEq, Eq, Structural)]
pub struct Dimensions {
    pub width: u64,
    pub height: u64,
}

} // verus!

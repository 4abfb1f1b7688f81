//! Appearance options of background stars.

use vstd::prelude::*;

verus! {

/// Star outline.
#[derive(Debug, Clone, Copy, PartialEq, Eq, Structural)]
pub enum StarShape {
    Circle,
    FourPoint,
    SixPoint,
}

/// Star colour palette.
#[derive(Debug, Clone, Copy, PartialEq, Eq, Structural)]
pub enum StarColor {
    White,
    LightBlue,
    Cyan,
    LightPurple,
    Pink,
    PaleYellow,
}

pub const STAR_SHAPE_COUNT: usize = 3;

pub const STAR_COLOR_COUNT: usize = 6;

impl StarShape {
    pub open spec fn spec_from_index(i: usize) -> StarShape {
        if i == 0 {
            StarShape::Circle
        } else if i == 1 {
            StarShape::FourPoint
        } else {
            StarShape::SixPoint
        }
    }

    /// The shape at position `i` of the palette order above.
    pub fn from_index(i: usize) -> (r: StarShape)
        requires
            i < STAR_SHAPE_COUNT,
        ensures
            r == Self::spec_from_index(i),
    {
        if i == 0 {
            StarShape::Circle
        } else if i == 1 {
            StarShape::FourPoint
        } else {
            StarShape::SixPoint
        }
    }

    /// The name the host knows this shape by.
    pub fn label(self) -> (r: &'static str)
        ensures
            r@ == match self {
                StarShape::Circle => "circle"@,
                StarShape::FourPoint => "four_point"@,
                StarShape::SixPoint => "six_point"@,
            },
    {
        match self {
            StarShape::Circle => "circle",
            StarShape::FourPoint => "four_point",
            StarShape::SixPoint => "six_point",
        }
    }
}

impl StarColor {
    pub open spec fn spec_from_index(i: usize) -> StarColor {
        if i == 0 {
            StarColor::White
        } else if i == 1 {
            StarColor::LightBlue
        } else if i == 2 {
            StarColor::Cyan
        } else if i == 3 {
            StarColor::LightPurple
        } else if i == 4 {
            StarColor::Pink
        } else {
            StarColor::PaleYellow
        }
    }

    /// The colour at position `i` of the palette order above.
    pub fn from_index(i: usize) -> (r: StarColor)
        requires
            i < STAR_COLOR_COUNT,
        ensures
            r == Self::spec_from_index(i),
    {
        if i == 0 {
            StarColor::White
        } else if i == 1 {
            StarColor::LightBlue
        } else if i == 2 {
            StarColor::Cyan
        } else if i == 3 {
            StarColor::LightPurple
        } else if i == 4 {
            StarColor::Pink
        } else {
            StarColor::PaleYellow
        }
    }

    /// The name the host knows this colour by.
    pub fn label(self) -> (r: &'static str)
        ensures
            r@ == match self {
                StarColor::White => "white"@,
                StarColor::LightBlue => "light_blue"@,
                StarColor::Cyan => "cyan"@,
                StarColor::LightPurple => "light_purple"@,
                StarColor::Pink => "pink"@,
                StarColor::PaleYellow => "pale_yellow"@,
            },
    {
        match self {
            StarColor::White => "white",
            StarColor::LightBlue => "light_blue",
            StarColor::Cyan => "cyan",
            StarColor::LightPurple => "light_purple",
            StarColor::Pink => "pink",
            StarColor::PaleYellow => "pale_yellow",
        }
    }
}

} // verus!

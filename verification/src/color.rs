//! The available game colors, modelled as an `Rgb` struct and a `Name` enum.

use vstd::prelude::*;

verus! {

/// A simple struct to model the RGB colorspace.
#[derive(Clone, Copy, Debug, PartialEq, Eq, Structural)]
pub struct Rgb {
    /// The red component.
    pub r: u8,
    /// The green component.
    pub g: u8,
    /// The blue component.
    pub b: u8,
}

impl Rgb {
    /// Convert an array of components to an RGB color.
    pub fn from_array(arr: [u8; 3]) -> (c: Rgb)
        ensures
            c.r == arr@[0],
            c.g == arr@[1],
            c.b == arr@[2],
    {
        Rgb { r: arr[0], g: arr[1], b: arr[2] }
    }

    /// Convert an RGB color to an array of components.
    pub fn to_array(&self) -> (arr: [u8; 3])
        ensures
            arr@[0] == self.r,
            arr@[1] == self.g,
            arr@[2] == self.b,
    {
        [self.r, self.g, self.b]
    }
}

/// An enum of available RGB colors in the game.
#[derive(Clone, Copy, Debug, PartialEq, Eq, Structural)]
pub enum Name {
    /// The color blue.
    Blue,
    /// The color cyan.
    Cyan,
    /// The color green, which is the default.
    Green,
    /// The color orange.
    Orange,
    /// The color purple.
    Purple,
    /// The color red.
    Red,
    /// The color yellow.
    Yellow,
}

/// The RGB components of each named game color.
pub open spec fn spec_rgb_of(name: Name) -> Rgb {
    match name {
        Name::Blue => Rgb { r: 0, g: 0, b: 255 },
        Name::Cyan => Rgb { r: 0, g: 255, b: 255 },
        Name::Green => Rgb { r: 0, g: 255, b: 0 },
        Name::Orange => Rgb { r: 255, g: 127, b: 0 },
        Name::Purple => Rgb { r: 255, g: 0, b: 255 },
        Name::Red => Rgb { r: 255, g: 0, b: 0 },
        Name::Yellow => Rgb { r: 255, g: 255, b: 0 },
    }
}

impl Default for Name {
    /// The default game color is green.
    fn default() -> (n: Name)
        ensures
            n == Name::Green,
    {
        Name::Green
    }
}

impl From<Name> for Rgb {
    /// Look up the RGB components of a named game color.
    fn from(name: Name) -> (c: Rgb) {
        match name {
            Name::Blue => Rgb::from_array([0, 0, 255]),
            Name::Cyan => Rgb::from_array([0, 255, 255]),
            Name::Green => Rgb::from_array([0, 255, 0]),
            Name::Orange => Rgb::from_array([255, 127, 0]),
            Name::Purple => Rgb::from_array([255, 0, 255]),
            Name::Red => Rgb::from_array([255, 0, 0]),
            Name::Yellow => Rgb::from_array([255, 255, 0]),
        }
    }
}

impl vstd::std_specs::convert::FromSpecImpl<Name> for Rgb {
    open spec fn obeys_from_spec() -> bool {
        true
    }

    open spec fn from_spec(name: Name) -> Rgb {
        spec_rgb_of(name)
    }
}

} // verus!

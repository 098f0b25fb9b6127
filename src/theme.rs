use vstd::prelude::*;

verus! {

/// A colour given by its red, green and blue components.
#[derive(Clone, Copy, Debug, PartialEq, Eq, Structural)]
pub struct Rgb {
    pub r: u8,
    pub g: u8,
    pub b: u8,
}

pub open spec fn rgb(r: u8, g: u8, b: u8) -> Rgb {
    Rgb { r, g, b }
}

/// The colour schemes the timer can be drawn in.
#[derive(Clone, Copy, Debug, PartialEq, Eq, Structural)]
pub enum Theme {
    Dracula,
    SolarizedDark,
    GruvboxDark,
}

/// The background, accent and success colours of each theme.
pub open spec fn palette(t: Theme) -> (Rgb, Rgb, Rgb) {
    match t {
        Theme::Dracula => (rgb(40, 42, 54), rgb(189, 147, 249), rgb(80, 250, 123)),
        Theme::SolarizedDark => (rgb(0, 43, 54), rgb(38, 139, 210), rgb(133, 153, 0)),
        Theme::GruvboxDark => (rgb(40, 40, 40), rgb(250, 189, 47), rgb(184, 187, 38)),
    }
}

impl Theme {
    /// The theme's background, accent and success colours.
    pub fn colors(self) -> (r: (Rgb, Rgb, Rgb))
        ensures
            r == palette(self),
    {
        match self {
            Theme::Dracula => (
                Rgb { r: 40, g: 42, b: 54 },
                Rgb { r: 189, g: 147, b: 249 },
                Rgb { r: 80, g: 250, b: 123 },
            ),
            Theme::SolarizedDark => (
                Rgb { r: 0, g: 43, b: 54 },
                Rgb { r: 38, g: 139, b: 210 },
                Rgb { r: 133, g: 153, b: 0 },
            ),
            Theme::GruvboxDark => (
                Rgb { r: 40, g: 40, b: 40 },
                Rgb { r: 250, g: 189, b: 47 },
                Rgb { r: 184, g: 187, b: 38 },
            ),
        }
    }
}

} // verus!

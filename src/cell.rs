use vstd::prelude::*;

verus! {

/// A colour: three 8-bit channels.
#[derive(Debug, Clone, Copy, PartialEq, Eq, Structural)]
pub struct Cell {
    pub r: u8,
    pub g: u8,
    pub b: u8,
}

/// The colour a fresh screen is filled with: opaque white.
pub open spec fn white() -> Cell {
    Cell { r: 255, g: 255, b: 255 }
}

impl Default for Cell {
    fn default() -> (c: Self)
        ensures
            c == white(),
    {
        Cell { r: 255, g: 255, b: 255 }
    }
}

impl Cell {
    /// The colour with the given red, green and blue channels.
    pub fn new(r: u8, g: u8, b: u8) -> (c: Self)
        ensures
            c == (Cell { r, g, b }),
    {
        Cell { r, g, b }
    }
}

/// The colour with the given channels.
pub open spec fn rgb(r: u8, g: u8, b: u8) -> Cell {
    Cell { r, g, b }
}

/// The sixteen colours of the built-in retro palette, by index.
pub open spec fn default_palette_seq() -> Seq<Cell> {
    seq![
        rgb(0, 0, 0),
        rgb(29, 43, 83),
        rgb(126, 37, 83),
        rgb(0, 135, 81),
        rgb(171, 82, 54),
        rgb(95, 87, 79),
        rgb(194, 195, 199),
        rgb(255, 241, 232),
        rgb(255, 0, 77),
        rgb(255, 163, 0),
        rgb(255, 236, 39),
        rgb(0, 228, 54),
        rgb(41, 173, 255),
        rgb(131, 118, 156),
        rgb(255, 119, 168),
        rgb(255, 204, 170),
    ]
}

/// The built-in retro palette: black, dark blue, dark purple, dark green,
/// brown, dark grey, light grey, white, red, orange, yellow, green, blue,
/// lavender, pink and light peach.
pub fn default_palette() -> (p: [Cell; 16])
    ensures
        p@ == default_palette_seq(),
{
    let p = [
        Cell::new(0, 0, 0),
        Cell::new(29, 43, 83),
        Cell::new(126, 37, 83),
        Cell::new(0, 135, 81),
        Cell::new(171, 82, 54),
        Cell::new(95, 87, 79),
        Cell::new(194, 195, 199),
        Cell::new(255, 241, 232),
        Cell::new(255, 0, 77),
        Cell::new(255, 163, 0),
        Cell::new(255, 236, 39),
        Cell::new(0, 228, 54),
        Cell::new(41, 173, 255),
        Cell::new(131, 118, 156),
        Cell::new(255, 119, 168),
        Cell::new(255, 204, 170),
    ];
    assert(p@ =~= default_palette_seq());
    p
}

} // verus!

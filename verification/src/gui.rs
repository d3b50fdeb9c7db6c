use vstd::prelude::*;
use vstd::array::array_fill_for_copy_types;

use crate::ppu::rgb::Rgb;

verus! {

/// A screen of `WIDTH` by `HEIGHT` pixels for showing debug information.
pub struct DebugScreen<const WIDTH: usize, const HEIGHT: usize> {
    buffer: [[Rgb; WIDTH]; HEIGHT],
}

impl<const WIDTH: usize, const HEIGHT: usize> DebugScreen<WIDTH, HEIGHT> {
    /// The color of the pixel in a column and row.
    pub closed spec fn spec_pixel(&self, column: int, row: int) -> Rgb {
        self.buffer[row][column]
    }

    /// A screen with every pixel of the given color.
    pub fn new(default_rgb: Rgb) -> (screen: DebugScreen<WIDTH, HEIGHT>)
        ensures
            forall|column: int, row: int| 0 <= column < WIDTH && 0 <= row < HEIGHT
                ==> #[trigger] screen.spec_pixel(column, row) == default_rgb,
    {
        let row: [Rgb; WIDTH] = array_fill_for_copy_types(default_rgb);
        let buffer: [[Rgb; WIDTH]; HEIGHT] = array_fill_for_copy_types(row);
        DebugScreen { buffer }
    }

    pub fn width(&self) -> (width: usize)
        ensures width == WIDTH,
    {
        WIDTH
    }

    pub fn height(&self) -> (height: usize)
        ensures height == HEIGHT,
    {
        HEIGHT
    }

    pub fn pixel(&self, column: usize, row: usize) -> (rgb: Rgb)
        requires
            column < WIDTH,
            row < HEIGHT,
        ensures
            rgb == self.spec_pixel(column as int, row as int),
    {
        self.buffer[row][column]
    }

    /// Colors one pixel; the others keep their colors.
    pub fn set_pixel(&mut self, column: usize, row: usize, rgb: Rgb)
        requires
            column < WIDTH,
            row < HEIGHT,
        ensures
            forall|c: int, r: int| 0 <= c < WIDTH && 0 <= r < HEIGHT ==> #[trigger] final(self).spec_pixel(c, r)
                == if c == column && r == row { rgb } else { old(self).spec_pixel(c, r) },
    {
        let mut line = self.buffer[row];
        line[column] = rgb;
        self.buffer[row] = line;
    }
}

} // verus!

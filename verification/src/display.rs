//! The 64x32 monochrome screen and sprite compositing, as mathematics.
//!
//! A screen is a sequence of 2048 pixels in row-major order: the pixel in
//! column `x` of line `y` has the index `y * 64 + x`. A sprite is a sequence
//! of rows of eight pixels each, one byte per row, bit 7 being the leftmost
//! pixel.

use vstd::prelude::*;

verus! {

/// Number of pixels in a line of the screen.
pub const VIDEO_WIDTH: u8 = 64;

/// Number of lines of the screen.
pub const VIDEO_HEIGHT: u8 = 32;

/// The value of a screen cell whose pixel is on; a cell whose pixel is off
/// holds zero.
pub const PIXEL_ON: u32 = 0xFFFF_FFFF;

/// Whether column `col` of the sprite row `bits` is set. Column 0 is bit 7.
pub open spec fn row_bit(bits: u8, col: int) -> bool {
    0 <= col < 8 && bits & (0x80u8 >> (col as u8)) != 0
}

/// Whether the sprite, placed with its top left corner at `(x0, y0)`, has a
/// set pixel at the screen position `(px, py)`.
pub open spec fn sprite_covers(sprite: Seq<u8>, x0: int, y0: int, px: int, py: int) -> bool {
    &&& 0 <= py - y0 < sprite.len()
    &&& row_bit(sprite[py - y0], px - x0)
}

/// The screen after the sprite has been composited onto it at `(x0, y0)`:
/// every pixel that the sprite covers is toggled, every other pixel is kept.
/// Sprite pixels that would fall outside the screen are not drawn.
pub open spec fn composite(screen: Seq<bool>, sprite: Seq<u8>, x0: int, y0: int) -> Seq<bool> {
    Seq::new(2048, |k: int| screen[k] != sprite_covers(sprite, x0, y0, k % 64, k / 64))
}

/// Whether the pixel with the index `k` is on and covered by the sprite.
pub open spec fn pixel_hit(screen: Seq<bool>, sprite: Seq<u8>, x0: int, y0: int, k: int) -> bool {
    screen[k] && sprite_covers(sprite, x0, y0, k % 64, k / 64)
}

/// Whether compositing the sprite at `(x0, y0)` turns a pixel off that was on.
pub open spec fn collides(screen: Seq<bool>, sprite: Seq<u8>, x0: int, y0: int) -> bool {
    exists|k: int| 0 <= k < 2048 && #[trigger] pixel_hit(screen, sprite, x0, y0, k)
}

/// Whether at least one set pixel of the sprite lands on the screen.
pub open spec fn sprite_visible(sprite: Seq<u8>, x0: int, y0: int) -> bool {
    exists|px: int, py: int|
        0 <= px < 64 && 0 <= py < 32 && #[trigger] sprite_covers(sprite, x0, y0, px, py)
}

/// The screen with every pixel off.
pub open spec fn blank() -> Seq<bool> {
    Seq::new(2048, |k: int| false)
}

} // verus!

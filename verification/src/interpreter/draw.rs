//! The draw instruction.

use vstd::prelude::*;
use crate::display::{collides, composite, pixel_hit, row_bit, sprite_covers, PIXEL_ON};
use crate::interpreter::Chip8;
use crate::model::{Fault, Machine};

verus! {

/// Whether the sprite covers `(px, py)` with one of the pixels that come
/// before column `col` of row `row` in drawing order.
spec fn drawn(sprite: Seq<u8>, x0: int, y0: int, row: int, col: int, px: int, py: int) -> bool {
    &&& sprite_covers(sprite, x0, y0, px, py)
    &&& (py - y0 < row || (py - y0 == row && px - x0 < col))
}

/// Whether the pixel `k` was on and is among the pixels drawn so far.
spec fn drawn_hit(
    screen: Seq<bool>,
    sprite: Seq<u8>,
    x0: int,
    y0: int,
    row: int,
    col: int,
    k: int,
) -> bool {
    screen[k] && drawn(sprite, x0, y0, row, col, k % 64, k / 64)
}

/// Whether one of the pixels drawn so far was on before.
spec fn drawn_collides(
    screen: Seq<bool>,
    sprite: Seq<u8>,
    x0: int,
    y0: int,
    row: int,
    col: int,
) -> bool {
    exists|k: int| 0 <= k < 2048 && #[trigger] drawn_hit(screen, sprite, x0, y0, row, col, k)
}

/// Drawing order moves on by one column. `lit` tells whether the pixel in
/// column `col` of row `row` is set and lands on the screen.
proof fn lemma_draw_pixel(
    screen: Seq<bool>,
    sprite: Seq<u8>,
    x0: int,
    y0: int,
    row: int,
    col: int,
    lit: bool,
)
    requires
        0 <= x0 < 64,
        0 <= y0 < 32,
        0 <= row < sprite.len(),
        0 <= col < 8,
        lit == (y0 + row < 32 && x0 + col < 64 && row_bit(sprite[row], col)),
    ensures
        forall|j: int|
            0 <= j < 2048 ==> #[trigger] drawn(sprite, x0, y0, row, col + 1, j % 64, j / 64) == ((lit
                && j == (y0 + row) * 64 + x0 + col) || drawn(
                sprite,
                x0,
                y0,
                row,
                col,
                j % 64,
                j / 64,
            )),
        !drawn(sprite, x0, y0, row, col, x0 + col, y0 + row),
        drawn_collides(screen, sprite, x0, y0, row, col + 1) == (drawn_collides(
            screen,
            sprite,
            x0,
            y0,
            row,
            col,
        ) || (lit && screen[(y0 + row) * 64 + x0 + col])),
{
    let k = (y0 + row) * 64 + x0 + col;
    assert forall|j: int| 0 <= j < 2048 implies #[trigger] drawn(
        sprite,
        x0,
        y0,
        row,
        col + 1,
        j % 64,
        j / 64,
    ) == ((lit && j == k) || drawn(sprite, x0, y0, row, col, j % 64, j / 64)) by {
        if j == k && lit {
            assert(j % 64 == x0 + col && j / 64 == y0 + row);
        }
        if j % 64 == x0 + col && j / 64 == y0 + row {
            assert(j == k);
        }
    }
    if drawn_collides(screen, sprite, x0, y0, row, col + 1) {
        let j = choose|j: int|
            0 <= j < 2048 && #[trigger] drawn_hit(screen, sprite, x0, y0, row, col + 1, j);
        if !(lit && j == k) {
            assert(drawn_hit(screen, sprite, x0, y0, row, col, j));
        }
    }
    if drawn_collides(screen, sprite, x0, y0, row, col) {
        let j = choose|j: int|
            0 <= j < 2048 && #[trigger] drawn_hit(screen, sprite, x0, y0, row, col, j);
        assert(drawn_hit(screen, sprite, x0, y0, row, col + 1, j));
    }
    if lit && screen[k] {
        assert(k % 64 == x0 + col && k / 64 == y0 + row);
        assert(drawn_hit(screen, sprite, x0, y0, row, col + 1, k));
    }
}

/// Behind the last column of a row, drawing order stands before the first
/// column of the next row.
proof fn lemma_draw_row_done(screen: Seq<bool>, sprite: Seq<u8>, x0: int, y0: int, row: int)
    ensures
        forall|px: int, py: int| #[trigger]
            drawn(sprite, x0, y0, row, 8, px, py) == drawn(sprite, x0, y0, row + 1, 0, px, py),
        drawn_collides(screen, sprite, x0, y0, row, 8) == drawn_collides(
            screen,
            sprite,
            x0,
            y0,
            row + 1,
            0,
        ),
{
    if drawn_collides(screen, sprite, x0, y0, row, 8) {
        let j = choose|j: int|
            0 <= j < 2048 && #[trigger] drawn_hit(screen, sprite, x0, y0, row, 8, j);
        assert(drawn_hit(screen, sprite, x0, y0, row + 1, 0, j));
    }
    if drawn_collides(screen, sprite, x0, y0, row + 1, 0) {
        let j = choose|j: int|
            0 <= j < 2048 && #[trigger] drawn_hit(screen, sprite, x0, y0, row + 1, 0, j);
        assert(drawn_hit(screen, sprite, x0, y0, row, 8, j));
    }
}

/// Behind the last row, everything that the sprite covers has been drawn.
proof fn lemma_draw_done(screen: Seq<bool>, sprite: Seq<u8>, x0: int, y0: int)
    ensures
        forall|px: int, py: int| #[trigger]
            drawn(sprite, x0, y0, sprite.len() as int, 0, px, py) == sprite_covers(
                sprite,
                x0,
                y0,
                px,
                py,
            ),
        drawn_collides(screen, sprite, x0, y0, sprite.len() as int, 0) == collides(
            screen,
            sprite,
            x0,
            y0,
        ),
{
    let rows = sprite.len() as int;
    if drawn_collides(screen, sprite, x0, y0, rows, 0) {
        let j = choose|j: int|
            0 <= j < 2048 && #[trigger] drawn_hit(screen, sprite, x0, y0, rows, 0, j);
        assert(pixel_hit(screen, sprite, x0, y0, j));
    }
    if collides(screen, sprite, x0, y0) {
        let j = choose|j: int| 0 <= j < 2048 && #[trigger] pixel_hit(screen, sprite, x0, y0, j);
        assert(drawn_hit(screen, sprite, x0, y0, rows, 0, j));
    }
}

impl Chip8 {
    /// What the machine holds when the pixels before column `col` of row
    /// `row` have been drawn on the machine `before`: the flag register and
    /// the screen cells reflect them, everything else is as it was.
    spec fn drawing(
        &self,
        before: Machine,
        sprite: Seq<u8>,
        x0: int,
        y0: int,
        row: int,
        col: int,
    ) -> bool {
        &&& self.cells_valid()
        &&& self.memory@ =~= before.memory
        &&& self.index == before.index
        &&& self.pc == before.pc
        &&& self.stack@ =~= before.stack
        &&& self.sp == before.sp
        &&& self.delay_timer == before.delay_timer
        &&& self.sound_timer == before.sound_timer
        &&& self.keypad@ =~= before.keypad
        &&& self.registers@ =~= before.registers.update(
            0xF,
            if drawn_collides(before.screen, sprite, x0, y0, row, col) {
                1u8
            } else {
                0u8
            },
        )
        &&& forall|k: int|
            0 <= k < 2048 ==> (#[trigger] self.video@[k] == PIXEL_ON) == (before.screen[k] != drawn(
                sprite,
                x0,
                y0,
                row,
                col,
                k % 64,
                k / 64,
            ))
    }

    /// Draw: composites the sprite of `rows` bytes at `I` onto the screen at
    /// the origin `(Vx % 64, Vy % 32)` and reports a collision in `VF`.
    pub(crate) fn op_dxyn(&mut self, x: u8, y: u8, rows: u8) -> (result: Result<(), Fault>)
        requires
            old(self).wf(),
            x < 16,
            y < 16,
            rows < 16,
        ensures
            final(self).wf(),
            old(self)@.leads_to(old(self)@.draw(x, y, rows), result, final(self)@),
    {
        let base: usize = self.index as usize;
        if rows > 0 && base + rows as usize > 4096 {
            return Err(Fault::MemoryAccessError);
        }
        let x0: u8 = self.registers[x as usize] % 64;
        let y0: u8 = self.registers[y as usize] % 32;
        let ghost before = old(self)@;
        let ghost sprite = before.sprite(rows);
        self.registers[0xF] = 0;
        assert(!drawn_collides(before.screen, sprite, x0 as int, y0 as int, 0, 0));
        let mut row: u8 = 0;
        while row < rows
            invariant
                row <= rows < 16,
                rows > 0 ==> base + rows <= 4096,
                base == before.index,
                x0 < 64,
                y0 < 32,
                before.wf(),
                sprite == before.sprite(rows),
                self.drawing(before, sprite, x0 as int, y0 as int, row as int, 0),
            decreases rows - row,
        {
            let py: u8 = y0 + row;
            let bits: u8 = self.memory[base + row as usize];
            let mut col: u8 = 0;
            while col < 8
                invariant
                    col <= 8,
                    row < rows < 16,
                    x0 < 64,
                    y0 < 32,
                    py == y0 + row,
                    before.wf(),
                    sprite.len() == rows,
                    bits == sprite[row as int],
                    self.drawing(before, sprite, x0 as int, y0 as int, row as int, col as int),
                decreases 8 - col,
            {
                let px: u8 = x0 + col;
                let lit = py < 32 && px < 64 && bits & (0x80u8 >> col) != 0;
                proof {
                    lemma_draw_pixel(
                        before.screen,
                        sprite,
                        x0 as int,
                        y0 as int,
                        row as int,
                        col as int,
                        lit,
                    );
                }
                if lit {
                    let k: usize = py as usize * 64 + px as usize;
                    let cell: u32 = self.video[k];
                    assert(k % 64 == px && k / 64 == py);
                    assert((cell == PIXEL_ON) == before.screen[k as int]);
                    if cell == PIXEL_ON {
                        self.registers[0xF] = 1;
                    }
                    assert(0u32 ^ 0xFFFF_FFFFu32 == 0xFFFF_FFFFu32) by (bit_vector);
                    assert(0xFFFF_FFFFu32 ^ 0xFFFF_FFFFu32 == 0u32) by (bit_vector);
                    self.video[k] = cell ^ PIXEL_ON;
                }
                col += 1;
            }
            proof {
                lemma_draw_row_done(before.screen, sprite, x0 as int, y0 as int, row as int);
            }
            row += 1;
        }
        proof {
            lemma_draw_done(before.screen, sprite, x0 as int, y0 as int);
        }
        Ok(())
    }
}

} // verus!

//! The 64x32 monochrome display and sprite drawing.
//!
//! A pixel at column `px` and row `py` is cell `py * 64 + px` of the
//! framebuffer. A sprite is a run of bytes, one per row, the most significant
//! bit leftmost. Drawing toggles every pixel under a set bit.

use vstd::prelude::*;

verus! {

/// Pixels per display row.
pub const SCREEN_WIDTH: usize = 64;

/// Display rows.
pub const SCREEN_HEIGHT: usize = 32;

/// Cells in the framebuffer.
pub const SCREEN_SIZE: usize = 2048;

/// Bit `col` of a sprite row, counted from the left, is set.
pub open spec fn bit_lit(row: u8, col: u8) -> bool {
    row & (0x80u8 >> col) != 0
}

/// The `count` bytes of `ram` from address `index` on: the rows of a sprite.
pub open spec fn sprite_rows(ram: Seq<u8>, index: int, count: int) -> Seq<u8> {
    Seq::new(count as nat, |r: int| ram[index + r])
}

/// A sprite placed on the display.
pub struct Sprite {
    /// The row bytes, top row first.
    pub rows: Seq<u8>,
    /// Column of the sprite's left edge, in 0..64.
    pub x: int,
    /// Row of the sprite's top edge, in 0..32.
    pub y: int,
    /// Whether pixels beyond the right and bottom edges reappear opposite.
    pub wraps: bool,
}

impl Sprite {
    /// The sprite lies with its corner on the display and has at most 15 rows.
    pub open spec fn wf(self) -> bool {
        &&& 0 <= self.x < 64
        &&& 0 <= self.y < 32
        &&& self.rows.len() <= 15
    }

    /// The sprite column that falls on display column `px`.
    pub open spec fn column_at(self, px: int) -> int {
        if self.wraps {
            (px - self.x) % 64
        } else {
            px - self.x
        }
    }

    /// The sprite row that falls on display row `py`.
    pub open spec fn row_at(self, py: int) -> int {
        if self.wraps {
            (py - self.y) % 32
        } else {
            py - self.y
        }
    }

    /// The sprite has a set bit over the pixel at (`px`, `py`).
    pub open spec fn lights(self, px: int, py: int) -> bool {
        let dx = self.column_at(px);
        let dy = self.row_at(py);
        0 <= dx < 8 && 0 <= dy < self.rows.len() && bit_lit(self.rows[dy], dx as u8)
    }

    /// The sprite has a set bit over framebuffer cell `p`.
    pub open spec fn lights_cell(self, p: int) -> bool {
        self.lights(p % 64, p / 64)
    }

    /// The framebuffer after the sprite is drawn: each cell under a set bit
    /// is toggled, every other cell is kept.
    pub open spec fn drawn_on(self, screen: Seq<bool>) -> Seq<bool> {
        Seq::new(2048, |p: int| screen[p] != self.lights_cell(p))
    }

    /// Drawing the sprite turns off some pixel that is lit.
    pub open spec fn collides_with(self, screen: Seq<bool>) -> bool {
        exists|p: int| 0 <= p < 2048 && #[trigger] screen[p] && self.lights_cell(p)
    }

    /// The sprite has a set bit over cell `p` in a row above `r`, or in row
    /// `r` left of column `c`: the part drawn when the scan reaches (`r`, `c`).
    pub open spec fn lights_cell_before(self, p: int, r: int, c: int) -> bool {
        let dx = self.column_at(p % 64);
        let dy = self.row_at(p / 64);
        self.lights_cell(p) && (dy < r || (dy == r && dx < c))
    }
}

/// Draws `count` sprite rows, read from `ram` at `index`, at column `x`
/// modulo 64 and row `y` modulo 32.
///
/// Every pixel under a set bit is toggled. Bits that fall beyond the right or
/// bottom edge are dropped, or with `wraps` reappear at the opposite edge.
/// Returns whether a lit pixel was turned off.
pub fn draw_sprite(
    screen: &mut [bool; 2048],
    ram: &[u8; 4096],
    index: usize,
    count: usize,
    x: u8,
    y: u8,
    wraps: bool,
) -> (hit: bool)
    requires
        count <= 15,
        index + count <= 4096,
    ensures
        ({
            let sprite = Sprite {
                rows: sprite_rows(ram@, index as int, count as int),
                x: x as int % 64,
                y: y as int % 32,
                wraps,
            };
            &&& final(screen)@ == sprite.drawn_on(old(screen)@)
            &&& hit == sprite.collides_with(old(screen)@)
        }),
    no_unwind
{
    let x0: usize = (x % 64) as usize;
    let y0: usize = (y % 32) as usize;
    let ghost sprite = Sprite {
        rows: sprite_rows(ram@, index as int, count as int),
        x: x as int % 64,
        y: y as int % 32,
        wraps,
    };
    let ghost before = screen@;
    let ghost mut witness: int = 0;
    let mut hit = false;
    let mut r: usize = 0;
    while r < count
        invariant
            r <= count <= 15,
            index + count <= 4096,
            x0 == sprite.x,
            y0 == sprite.y,
            sprite.wf(),
            sprite.wraps == wraps,
            sprite.rows == sprite_rows(ram@, index as int, count as int),
            before.len() == 2048,
            forall|p: int|
                0 <= p < 2048 ==> #[trigger] screen@[p] == (before[p] != sprite.lights_cell_before(
                    p,
                    r as int,
                    0,
                )),
            hit ==> 0 <= witness < 2048 && before[witness] && sprite.lights_cell(witness),
            !hit ==> forall|p: int|
                0 <= p < 2048 ==> !(#[trigger] before[p] && sprite.lights_cell_before(
                    p,
                    r as int,
                    0,
                )),
        decreases count - r,
    {
        let bits: u8 = ram[index + r];
        assert(bits == sprite.rows[r as int]);
        let py: usize = y0 + r;
        let mut c: u8 = 0;
        while c < 8
            invariant
                c <= 8,
                r < count <= 15,
                x0 == sprite.x,
                y0 == sprite.y,
                py == y0 + r,
                sprite.wf(),
                sprite.wraps == wraps,
                sprite.rows.len() == count,
                bits == sprite.rows[r as int],
                before.len() == 2048,
                forall|p: int|
                    0 <= p < 2048 ==> #[trigger] screen@[p] == (before[p]
                        != sprite.lights_cell_before(p, r as int, c as int)),
                hit ==> 0 <= witness < 2048 && before[witness] && sprite.lights_cell(witness),
                !hit ==> forall|p: int|
                    0 <= p < 2048 ==> !(#[trigger] before[p] && sprite.lights_cell_before(
                        p,
                        r as int,
                        c as int,
                    )),
            decreases 8 - c,
        {
            let px: usize = x0 + c as usize;
            let visible: bool = wraps || (px < 64 && py < 32);
            let set: bool = bits & (0x80u8 >> c) != 0;
            let cell: usize = (py % 32) * 64 + (px % 64);
            assert forall|p: int| 0 <= p < 2048 implies (sprite.lights_cell_before(
                p,
                r as int,
                c + 1,
            ) == (sprite.lights_cell_before(p, r as int, c as int) != (p == cell && visible
                && set))) by {
                let dx = sprite.column_at(p % 64);
                let dy = sprite.row_at(p / 64);
                if dx == c && dy == r {
                    assert(p % 64 == px % 64);
                    assert(p / 64 == py % 32);
                    assert(p == cell);
                    assert(visible);
                }
                if p == cell && visible {
                    assert(p % 64 == px % 64);
                    assert(p / 64 == py % 32);
                    assert(dx == c);
                    assert(dy == r);
                }
            }
            if visible && set {
                if screen[cell] {
                    hit = true;
                    proof {
                        witness = cell as int;
                    }
                }
                screen[cell] = !screen[cell];
            }
            c = c + 1;
        }
        r = r + 1;
    }
    assert(screen@ =~= sprite.drawn_on(before));
    hit
}

} // verus!

use vstd::prelude::*;

verus! {

/// Width of the screen, in pixels.
pub const SCREEN_WIDTH: usize = 64;

/// Height of the screen, in pixels.
pub const SCREEN_HEIGHT: usize = 32;

/// A display size, in pixels.
pub struct Resolution {
    pub width: usize,
    pub height: usize,
}

impl Resolution {
    /// The fixed resolution of the emulated screen.
    pub fn screen() -> (r: Resolution)
        ensures
            r.width == SCREEN_WIDTH,
            r.height == SCREEN_HEIGHT,
    {
        Resolution { width: SCREEN_WIDTH, height: SCREEN_HEIGHT }
    }
}

/// A position on the screen. `x` counts columns from the left edge, `y` counts
/// rows from the top edge.
#[derive(Debug, Clone, Copy, PartialEq, Eq, Structural)]
pub struct Coordinates {
    pub x: u8,
    pub y: u8,
}

impl Coordinates {
    /// Builds a coordinate pair, wrapping each component around the screen
    /// size, so the result always lies on the screen.
    pub fn new(x: u8, y: u8) -> (c: Coordinates)
        ensures
            c.x == x % (SCREEN_WIDTH as u8),
            c.y == y % (SCREEN_HEIGHT as u8),
            c.x < SCREEN_WIDTH,
            c.y < SCREEN_HEIGHT,
    {
        Coordinates { x: x % (SCREEN_WIDTH as u8), y: y % (SCREEN_HEIGHT as u8) }
    }
}

/// The monochrome framebuffer: a grid of boolean pixels, indexed as
/// `pixels[y][x]` with `y` a row and `x` a column.
#[derive(Debug, Clone, PartialEq, Eq)]
pub struct Display {
    pub pixels: Vec<Vec<bool>>,
}

impl View for Display {
    type V = Seq<Seq<bool>>;

    open spec fn view(&self) -> Seq<Seq<bool>> {
        Seq::new(self.pixels@.len(), |y: int| self.pixels@[y]@)
    }
}

/// A well-formed pixel grid: exactly `SCREEN_HEIGHT` rows of `SCREEN_WIDTH`
/// pixels each.
pub open spec fn grid_wf(g: Seq<Seq<bool>>) -> bool {
    &&& g.len() == SCREEN_HEIGHT
    &&& forall|y: int| 0 <= y < g.len() ==> (#[trigger] g[y]).len() == SCREEN_WIDTH
}

/// The grid with every pixel off.
pub open spec fn blank_grid() -> Seq<Seq<bool>> {
    Seq::new(SCREEN_HEIGHT as nat, |y: int| Seq::new(SCREEN_WIDTH as nat, |x: int| false))
}

/// The grid `g` with every pixel inside the box from `start` to `end`
/// (both inclusive) inverted.
pub open spec fn flipped_box(g: Seq<Seq<bool>>, start: Coordinates, end: Coordinates) -> Seq<
    Seq<bool>,
> {
    Seq::new(
        g.len(),
        |y: int|
            Seq::new(
                g[y].len(),
                |x: int|
                    if start.y <= y <= end.y && start.x <= x <= end.x {
                        !g[y][x]
                    } else {
                        g[y][x]
                    },
            ),
    )
}

/// Bit `i` of sprite row `b`, counted from the leftmost pixel: bit 0 is the
/// most significant bit of the byte.
pub open spec fn sprite_bit(b: u8, i: int) -> bool {
    (b >> ((7 - i) as u8)) & 1 == 1
}

/// Whether drawing sprite `s` anchored at column `cx`, row `cy` inverts the
/// pixel at row `y`, column `x`. Rows below the bottom edge and columns past
/// the right edge are cut off rather than wrapped, and a clear sprite bit
/// leaves the pixel untouched.
pub open spec fn sprite_flips(s: Seq<u8>, cx: int, cy: int, y: int, x: int) -> bool {
    &&& cy <= y < cy + s.len()
    &&& cx <= x < cx + 8
    &&& x < SCREEN_WIDTH
    &&& sprite_bit(s[y - cy], x - cx)
}

/// The grid `g` after XOR-drawing sprite `s` anchored at `(cx, cy)`.
pub open spec fn draw_spec(g: Seq<Seq<bool>>, s: Seq<u8>, cx: int, cy: int) -> Seq<Seq<bool>> {
    Seq::new(
        g.len(),
        |y: int|
            Seq::new(
                g[y].len(),
                |x: int|
                    if sprite_flips(s, cx, cy, y, x) {
                        !g[y][x]
                    } else {
                        g[y][x]
                    },
            ),
    )
}

impl Default for Display {
    /// A display with every pixel off.
    fn default() -> (d: Display)
        ensures
            d.wf(),
            d@ == blank_grid(),
    {
        let d = Display { pixels: blank_pixels() };
        assert(d@ =~~= blank_grid());
        d
    }
}

/// Builds the all-off pixel grid.
fn blank_pixels() -> (v: Vec<Vec<bool>>)
    ensures
        v@.len() == SCREEN_HEIGHT,
        forall|y: int| 0 <= y < v@.len() ==> (#[trigger] v@[y])@ =~= Seq::new(
            SCREEN_WIDTH as nat,
            |x: int| false,
        ),
{
    let mut rows: Vec<Vec<bool>> = Vec::new();
    let mut y: usize = 0;
    while y < SCREEN_HEIGHT
        invariant
            y <= SCREEN_HEIGHT,
            rows@.len() == y,
            forall|i: int| 0 <= i < y ==> (#[trigger] rows@[i])@ =~= Seq::new(
                SCREEN_WIDTH as nat,
                |x: int| false,
            ),
        decreases SCREEN_HEIGHT - y,
    {
        let mut row: Vec<bool> = Vec::new();
        let mut x: usize = 0;
        while x < SCREEN_WIDTH
            invariant
                x <= SCREEN_WIDTH,
                row@.len() == x,
                forall|j: int| 0 <= j < x ==> !(#[trigger] row@[j]),
            decreases SCREEN_WIDTH - x,
        {
            row.push(false);
            x = x + 1;
        }
        assert(row@ =~= Seq::new(SCREEN_WIDTH as nat, |x: int| false));
        rows.push(row);
        y = y + 1;
    }
    rows
}

/// Sprite rows that fall below the bottom edge change nothing: drawing only
/// the first `i` rows gives the same grid when the rest lies off screen.
proof fn lemma_draw_prefix_off_screen(g: Seq<Seq<bool>>, s: Seq<u8>, i: int, cx: int, cy: int)
    requires
        grid_wf(g),
        0 <= i <= s.len(),
        cy + i >= SCREEN_HEIGHT,
    ensures
        draw_spec(g, s.subrange(0, i), cx, cy) == draw_spec(g, s, cx, cy),
{
    assert forall|y: int, x: int| 0 <= y < g.len() && 0 <= x < g[y].len() implies sprite_flips(
        s.subrange(0, i),
        cx,
        cy,
        y,
        x,
    ) == sprite_flips(s, cx, cy, y, x) by {
        if cy <= y < cy + i {
            assert(s.subrange(0, i)[y - cy] == s[y - cy]);
        }
    }
    assert(draw_spec(g, s.subrange(0, i), cx, cy) =~~= draw_spec(g, s, cx, cy));
}

/// Law: XOR-drawing the same sprite twice at the same anchor restores every
/// pixel to its prior state.
pub proof fn lemma_draw_involution(g: Seq<Seq<bool>>, s: Seq<u8>, cx: int, cy: int)
    ensures
        draw_spec(draw_spec(g, s, cx, cy), s, cx, cy) == g,
{
    let g1 = draw_spec(g, s, cx, cy);
    assert(draw_spec(g1, s, cx, cy) =~~= g);
}

/// Law: after a clear, every pixel on the screen reads off.
pub proof fn lemma_clear_all_off(d: Display)
    requires
        d@ == blank_grid(),
    ensures
        forall|y: int, x: int| 0 <= y < SCREEN_HEIGHT && 0 <= x < SCREEN_WIDTH ==> !d@[y][x],
{
}

impl Display {
    /// A well-formed display backs a full pixel grid.
    pub open spec fn wf(&self) -> bool {
        grid_wf(self@)
    }

    /// Inverts every pixel inside the box from `start` to `end`, both
    /// inclusive.
    pub fn flip_all(&mut self, start: Coordinates, end: Coordinates)
        requires
            old(self).wf(),
            start.x <= end.x < SCREEN_WIDTH,
            start.y <= end.y < SCREEN_HEIGHT,
        ensures
            final(self).wf(),
            final(self)@ == flipped_box(old(self)@, start, end),
    {
        let ghost g0 = self@;
        let mut x: u8 = start.x;
        while x <= end.x
            invariant
                grid_wf(g0),
                grid_wf(self@),
                start.x <= x <= end.x + 1,
                end.x < SCREEN_WIDTH,
                start.y <= end.y < SCREEN_HEIGHT,
                forall|yy: int, xx: int|
                    0 <= yy < SCREEN_HEIGHT && 0 <= xx < SCREEN_WIDTH ==> #[trigger] self@[yy][xx]
                        == if start.y <= yy <= end.y && start.x <= xx < x {
                        !g0[yy][xx]
                    } else {
                        g0[yy][xx]
                    },
            decreases end.x + 1 - x,
        {
            let mut y: u8 = start.y;
            while y <= end.y
                invariant
                    grid_wf(g0),
                    grid_wf(self@),
                    start.x <= x <= end.x,
                    end.x < SCREEN_WIDTH,
                    end.y < SCREEN_HEIGHT,
                    start.y <= y <= end.y + 1,
                    forall|yy: int, xx: int|
                        0 <= yy < SCREEN_HEIGHT && 0 <= xx < SCREEN_WIDTH
                            ==> #[trigger] self@[yy][xx] == if (start.y <= yy <= end.y && start.x
                            <= xx < x) || (start.y <= yy < y && xx == x) {
                            !g0[yy][xx]
                        } else {
                            g0[yy][xx]
                        },
                decreases end.y + 1 - y,
            {
                let xi: usize = x as usize;
                let yi: usize = y as usize;
                let ghost prev = self@;
                proof {
                    assert(self@[yi as int] == self.pixels@[yi as int]@);
                }
                let cur: bool = self.pixels[yi][xi];
                self.pixels[yi][xi] = !cur;
                proof {
                    assert(self@ =~~= prev.update(
                        yi as int,
                        prev[yi as int].update(xi as int, !cur),
                    ));
                }
                y = y + 1;
            }
            x = x + 1;
        }
        assert(self@ =~~= flipped_box(g0, start, end));
    }

    /// XOR-draws one sprite row byte at row `c.y`, columns `c.x` through
    /// `c.x + 7`, cutting off at the right edge.
    fn apply_row(&mut self, byte: u8, c: Coordinates)
        requires
            old(self).wf(),
            c.x < SCREEN_WIDTH,
            c.y < SCREEN_HEIGHT,
        ensures
            final(self).wf(),
            forall|yy: int, xx: int|
                0 <= yy < SCREEN_HEIGHT && 0 <= xx < SCREEN_WIDTH ==> #[trigger] final(self)@[yy][xx]
                    == if yy == c.y && c.x <= xx < c.x + 8 && sprite_bit(byte, xx - c.x) {
                    !old(self)@[yy][xx]
                } else {
                    old(self)@[yy][xx]
                },
    {
        let ghost g0 = self@;
        let mut j: u8 = 0;
        while j < 8
            invariant
                grid_wf(g0),
                grid_wf(self@),
                j <= 8,
                c.x < SCREEN_WIDTH,
                c.y < SCREEN_HEIGHT,
                forall|yy: int, xx: int|
                    0 <= yy < SCREEN_HEIGHT && 0 <= xx < SCREEN_WIDTH ==> #[trigger] self@[yy][xx]
                        == if yy == c.y && c.x <= xx < c.x + j && sprite_bit(byte, xx - c.x) {
                        !g0[yy][xx]
                    } else {
                        g0[yy][xx]
                    },
            decreases 8 - j,
        {
            let xx: usize = c.x as usize + j as usize;
            if xx < SCREEN_WIDTH {
                let set: bool = (byte >> (7 - j)) & 1 == 1;
                if set {
                    let yi: usize = c.y as usize;
                    let ghost prev = self@;
                    proof {
                        assert(self@[yi as int] == self.pixels@[yi as int]@);
                    }
                    let cur: bool = self.pixels[yi][xx];
                    self.pixels[yi][xx] = !cur;
                    proof {
                        assert(self@ =~~= prev.update(
                            yi as int,
                            prev[yi as int].update(xx as int, !cur),
                        ));
                    }
                }
            }
            j = j + 1;
        }
    }

    /// XOR-draws a sprite whose rows are the bytes of `sprite`, anchored at
    /// `coordinates`. Rows past the bottom edge and columns past the right
    /// edge are cut off; the anchor itself must already lie on the screen.
    pub fn apply_sprite(&mut self, sprite: &[u8], coordinates: Coordinates)
        requires
            old(self).wf(),
            coordinates.x < SCREEN_WIDTH,
            coordinates.y < SCREEN_HEIGHT,
        ensures
            final(self).wf(),
            final(self)@ == draw_spec(
                old(self)@,
                sprite@,
                coordinates.x as int,
                coordinates.y as int,
            ),
    {
        let ghost g0 = self@;
        let ghost cx = coordinates.x as int;
        let ghost cy = coordinates.y as int;
        let len: usize = sprite.len();
        proof {
            assert(g0 =~~= draw_spec(g0, sprite@.subrange(0, 0), cx, cy));
        }
        let mut i: usize = 0;
        while i < len
            invariant
                g0 == old(self)@,
                grid_wf(g0),
                grid_wf(self@),
                i <= len,
                len == sprite@.len(),
                cx == coordinates.x as int,
                cy == coordinates.y as int,
                coordinates.x < SCREEN_WIDTH,
                coordinates.y < SCREEN_HEIGHT,
                coordinates.y + i <= SCREEN_HEIGHT,
                self@ == draw_spec(g0, sprite@.subrange(0, i as int), cx, cy),
            decreases len - i,
        {
            if coordinates.y as usize + i >= SCREEN_HEIGHT {
                proof {
                    lemma_draw_prefix_off_screen(g0, sprite@, i as int, cx, cy);
                    assert(self@ == draw_spec(g0, sprite@, cx, cy));
                }
                return ;
            }
            let byte: u8 = *vstd::slice::slice_index_get(sprite, i);
            let row_y: u8 = coordinates.y + i as u8;
            let ghost before = self@;
            self.apply_row(byte, Coordinates { x: coordinates.x, y: row_y });
            proof {
                assert forall|yy: int, xx: int|
                    0 <= yy < SCREEN_HEIGHT && 0 <= xx < SCREEN_WIDTH implies #[trigger] self@[yy][xx]
                    == if sprite_flips(sprite@.subrange(0, i + 1), cx, cy, yy, xx) {
                    !g0[yy][xx]
                } else {
                    g0[yy][xx]
                } by {
                    assert(before[yy][xx] == if sprite_flips(
                        sprite@.subrange(0, i as int),
                        cx,
                        cy,
                        yy,
                        xx,
                    ) {
                        !g0[yy][xx]
                    } else {
                        g0[yy][xx]
                    });
                }
                assert(self@ =~~= draw_spec(g0, sprite@.subrange(0, i + 1), cx, cy));
            }
            i = i + 1;
        }
        proof {
            assert(sprite@.subrange(0, len as int) =~= sprite@);
        }
    }

    /// Turns every pixel off.
    pub fn clear(&mut self)
        ensures
            final(self).wf(),
            final(self)@ == blank_grid(),
    {
        self.pixels = blank_pixels();
        assert(self@ =~~= blank_grid());
    }
}

} // verus!

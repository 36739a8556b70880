use vstd::prelude::*;

verus! {

/// Width of the screen in pixels.
pub const WIDTH: usize = 64;

/// Height of the screen in pixels.
pub const HEIGHT: usize = 32;

/// Number of pixels on the screen.
pub const PIXELS: usize = 2048;

/// Whether bit `i` of a sprite row is set, counting from the most significant bit.
pub open spec fn bit_set(byte: u8, i: int) -> bool {
    byte & (0x80u8 >> (i as u8)) != 0
}

/// Screen row that sprite row `j` lands on when the sprite is drawn at height `y`.
pub open spec fn row_of(y: int, j: int) -> int {
    (y % 32 + j % 32) % 32
}

/// Column offset of pixel `p` from the sprite's left edge at `x`, wrapping round.
pub open spec fn offset_of(x: int, p: int) -> int {
    (p % 64 + 64 - x % 64) % 64
}

/// Whether drawing `byte` as sprite row `j` at `(x, y)` flips pixel `p`.
pub open spec fn hits(x: int, y: int, j: int, byte: u8, p: int) -> bool {
    p / 64 == row_of(y, j) && offset_of(x, p) < 8 && bit_set(byte, offset_of(x, p))
}

/// Whether drawing the sprite `s` at `(x, y)` flips pixel `p` an odd number of times.
pub open spec fn flips(x: int, y: int, s: Seq<u8>, p: int) -> bool
    decreases s.len(),
{
    if s.len() == 0 {
        false
    } else {
        flips(x, y, s.drop_last(), p) != hits(x, y, s.len() - 1, s.last(), p)
    }
}

/// The grid after XOR-drawing the sprite `s` at `(x, y)`.
pub open spec fn drawn(g: Seq<bool>, x: int, y: int, s: Seq<u8>) -> Seq<bool> {
    Seq::new(g.len(), |p: int| g[p] != flips(x, y, s, p))
}

/// Whether drawing the sprite `s` at `(x, y)` on `g` turns some lit pixel off.
pub open spec fn collides(g: Seq<bool>, x: int, y: int, s: Seq<u8>) -> bool
    decreases s.len(),
{
    if s.len() == 0 {
        false
    } else {
        let before = drawn(g, x, y, s.drop_last());
        collides(g, x, y, s.drop_last()) || exists|p: int|
            0 <= p < g.len() && hits(x, y, s.len() - 1, s.last(), p) && #[trigger] before[p]
    }
}

/// Whether the sprite `s` has any bit set, so that drawing it changes the grid.
pub open spec fn any_bit(s: Seq<u8>) -> bool {
    exists|j: int| 0 <= j < s.len() && s[j] != 0
}

/// The grid with every pixel off.
pub open spec fn blank() -> Seq<bool> {
    Seq::new(PIXELS as nat, |p: int| false)
}

/// Pixel `q` that bit `i` of a row lands on: its row, column and offset.
proof fn lemma_pixel(x: int, row: int, i: int)
    requires
        0 <= row < 32,
        0 <= i < 8,
    ensures
        ({
            let q = row * 64 + (x % 64 + i) % 64;
            &&& 0 <= q < 2048
            &&& q / 64 == row
            &&& offset_of(x, q) == i
            &&& forall|p: int| 0 <= p < 2048 && p / 64 == row && offset_of(x, p) == i ==> p == q
        }),
{
    let q = row * 64 + (x % 64 + i) % 64;
    assert(q / 64 == row && q % 64 == (x % 64 + i) % 64) by (nonlinear_arith)
        requires
            q == row * 64 + (x % 64 + i) % 64,
            0 <= row < 32,
    ;
    assert forall|p: int| 0 <= p < 2048 && p / 64 == row && offset_of(x, p) == i implies p == q by {
        assert(p == (p / 64) * 64 + p % 64) by (nonlinear_arith);
    }
}

/// Rows of a sprite that all miss the screen row of `p` leave `p` as it was.
proof fn lemma_flips_elsewhere(x: int, y: int, t: Seq<u8>, p: int)
    requires
        forall|k: int| 0 <= k < t.len() ==> row_of(y, k) != p / 64,
    ensures
        !flips(x, y, t, p),
    decreases t.len(),
{
    if t.len() > 0 {
        lemma_flips_elsewhere(x, y, t.drop_last(), p);
    }
}

/// XOR drawing undoes itself: drawing the same sprite at the same place twice
/// gives back the grid it started from.
pub proof fn lemma_draw_involution(g: Seq<bool>, x: int, y: int, s: Seq<u8>)
    ensures
        drawn(drawn(g, x, y, s), x, y, s) == g,
{
    assert(drawn(drawn(g, x, y, s), x, y, s) =~= g);
}

/// A sprite of at most 32 rows never overlaps itself, so drawing it on a blank
/// screen reports no collision; drawing it there a second time erases it.
pub proof fn lemma_draw_twice_on_blank(x: int, y: int, s: Seq<u8>)
    requires
        s.len() <= HEIGHT,
    ensures
        !collides(blank(), x, y, s),
        drawn(drawn(blank(), x, y, s), x, y, s) == blank(),
    decreases s.len(),
{
    lemma_draw_involution(blank(), x, y, s);
    if s.len() > 0 {
        let t = s.drop_last();
        lemma_draw_twice_on_blank(x, y, t);
        let j = s.len() - 1;
        assert forall|p: int| 0 <= p < PIXELS && hits(x, y, j, s.last(), p) implies !drawn(
            blank(),
            x,
            y,
            t,
        )[p] by {
            assert forall|k: int| 0 <= k < t.len() implies row_of(y, k) != p / 64 by {}
            lemma_flips_elsewhere(x, y, t, p);
        }
    }
}

/// The 64x32 monochrome screen, with a flag that says whether it changed since
/// the last repaint.
#[derive(Debug)]
pub struct Display {
    gfx: Vec<bool>,
    draw_flag: bool,
}

impl Display {
    /// The pixels, row by row.
    pub closed spec fn grid(&self) -> Seq<bool> {
        self.gfx@
    }

    /// Whether the screen changed since the last repaint.
    pub closed spec fn dirty(&self) -> bool {
        self.draw_flag
    }

    pub open spec fn wf(&self) -> bool {
        self.grid().len() == PIXELS
    }

    /// A blank screen that still has to be painted once.
    pub fn new() -> (r: Display)
        ensures
            r.wf(),
            r.grid() == blank(),
            r.dirty(),
    {
        let r = Display { gfx: vec![false; PIXELS], draw_flag: true };
        assert(r.grid() =~= blank());
        r
    }

    /// Turns every pixel off and marks the screen dirty.
    pub fn clear(&mut self)
        requires
            old(self).wf(),
        ensures
            final(self).wf(),
            final(self).grid() == blank(),
            final(self).dirty(),
    {
        self.gfx = vec![false; PIXELS];
        self.draw_flag = true;
        assert(self.grid() =~= blank());
    }

    /// Whether the pixel in column `x` of row `y` is lit.
    pub fn pixel(&self, x: usize, y: usize) -> (r: bool)
        requires
            self.wf(),
            x < WIDTH,
            y < HEIGHT,
        ensures
            r == self.grid()[y * WIDTH + x],
    {
        self.gfx[y * WIDTH + x]
    }

    /// Whether the screen changed since the last call, clearing the flag: the
    /// host repaints when this returns `true`.
    pub fn take_dirty(&mut self) -> (r: bool)
        requires
            old(self).wf(),
        ensures
            final(self).wf(),
            r == old(self).dirty(),
            !final(self).dirty(),
            final(self).grid() == old(self).grid(),
    {
        let r = self.draw_flag;
        self.draw_flag = false;
        r
    }

    /// XOR-draws the sprite `sprite`, one byte per row, with its top-left corner
    /// at `(x, y)`; coordinates wrap round the screen edges. Returns whether a
    /// lit pixel was turned off.
    pub fn draw(&mut self, x: usize, y: usize, sprite: &[u8]) -> (collision: bool)
        requires
            old(self).wf(),
        ensures
            final(self).wf(),
            final(self).grid() == drawn(old(self).grid(), x as int, y as int, sprite@),
            collision == collides(old(self).grid(), x as int, y as int, sprite@),
            final(self).dirty() == (old(self).dirty() || any_bit(sprite@)),
    {
        let ghost g0 = self.grid();
        let ghost d0 = self.dirty();
        let ghost s = sprite@;
        let x0: usize = x % WIDTH;
        let y0: usize = y % HEIGHT;
        let n: usize = sprite.len();
        let mut collision = false;
        let mut j: usize = 0;
        while j < n
            invariant
                j <= n,
                n == s.len(),
                s == sprite@,
                x0 == x % 64,
                y0 == y % 32,
                self.wf(),
                g0.len() == PIXELS,
                self.grid() == drawn(g0, x as int, y as int, s.take(j as int)),
                collision == collides(g0, x as int, y as int, s.take(j as int)),
                self.dirty() == (d0 || any_bit(s.take(j as int))),
            decreases n - j,
        {
            let row: usize = (y0 + j % HEIGHT) % HEIGHT;
            let byte: u8 = sprite[j];
            let ghost before = self.grid();
            let ghost c0 = collision;
            if byte != 0 {
                self.draw_flag = true;
            }
            let mut i: usize = 0;
            while i < 8
                invariant
                    i <= 8,
                    j < n,
                    n == s.len(),
                    row == row_of(y as int, j as int),
                    x0 == x % 64,
                    byte == s[j as int],
                    self.wf(),
                    before.len() == PIXELS,
                    forall|p: int|
                        0 <= p < PIXELS ==> #[trigger] self.grid()[p] == (before[p] != (hits(
                            x as int,
                            y as int,
                            j as int,
                            byte,
                            p,
                        ) && offset_of(x as int, p) < i)),
                    collision == (c0 || exists|p: int|
                        0 <= p < PIXELS && hits(x as int, y as int, j as int, byte, p) && offset_of(
                            x as int,
                            p,
                        ) < i && #[trigger] before[p]),
                    self.dirty() == (d0 || any_bit(s.take(j as int)) || byte != 0),
                decreases 8 - i,
            {
                proof {
                    lemma_pixel(x as int, row as int, i as int);
                }
                let q: usize = row * WIDTH + (x0 + i) % WIDTH;
                if byte & (0x80u8 >> (i as u8)) != 0 {
                    if self.gfx[q] {
                        collision = true;
                    }
                    let flipped = !self.gfx[q];
                    self.gfx.set(q, flipped);
                }
                i = i + 1;
            }
            proof {
                let t = s.take(j as int + 1);
                assert(t.drop_last() =~= s.take(j as int));
                assert(t.last() == byte);
                assert(self.grid() =~= drawn(g0, x as int, y as int, t));
                if any_bit(t) {
                    let k = choose|k: int| 0 <= k < t.len() && t[k] != 0;
                    if k < j {
                        assert(s.take(j as int)[k] != 0);
                    }
                }
                if any_bit(s.take(j as int)) {
                    let k = choose|k: int| 0 <= k < j && s.take(j as int)[k] != 0;
                    assert(t[k] != 0);
                }
                if byte != 0 {
                    assert(t[j as int] != 0);
                }
            }
            j = j + 1;
        }
        assert(s.take(n as int) =~= s);
        collision
    }
}

} // verus!

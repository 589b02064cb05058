use vstd::prelude::*;

verus! {

/// Number of rows in the framebuffer.
pub const ROWS: usize = 32;

/// Right rotation of a 64-bit word by `s` positions, for `s < 64`.
pub open spec fn rotr(n: u64, s: u64) -> u64 {
    if s == 0 {
        n
    } else {
        (n >> s) | (n << ((64 - s) as u64))
    }
}

/// The 64-bit word that one sprite byte contributes when drawn at column `x`:
/// the byte sits at the most significant end and is rotated right by `x mod 64`.
pub open spec fn sprite_word(b: u8, x: u8) -> u64 {
    rotr((b as u64) << 56u64, (x % 64) as u64)
}

/// The framebuffer row that sprite row `k` lands on when drawn from row `y`.
pub open spec fn target_row(y: u8, k: int) -> int {
    (y as int + k) % 32
}

/// Which sprite row (if any) lands on framebuffer row `r`: its offset from `y`,
/// counted downwards with wraparound.
pub open spec fn row_offset(y: u8, r: int) -> int {
    if r >= (y % 32) as int {
        r - (y % 32) as int
    } else {
        r + 32 - (y % 32) as int
    }
}

/// The framebuffer after XOR-composing the first `n` rows of `sprite` at `(x, y)`.
pub open spec fn drawn(pixels: Seq<u64>, sprite: Seq<u8>, n: int, x: u8, y: u8) -> Seq<u64> {
    Seq::new(
        pixels.len(),
        |r: int|
            if row_offset(y, r) < n {
                pixels[r] ^ sprite_word(sprite[row_offset(y, r)], x)
            } else {
                pixels[r]
            },
    )
}

/// Whether drawing the first `n` rows of `sprite` at `(x, y)` turns off a lit pixel.
pub open spec fn collides(pixels: Seq<u64>, sprite: Seq<u8>, n: int, x: u8, y: u8) -> bool {
    exists|k: int|
        0 <= k < n && #[trigger] (pixels[target_row(y, k)] & sprite_word(sprite[k], x)) != 0
}

/// Rotates `n` right by `s` bit positions; bits leaving the low end re-enter at the high end.
pub fn right_rotate(n: u64, s: u8) -> (r: u64)
    requires
        s < 64,
    ensures
        r == rotr(n, s as u64),
{
    let shift: u64;
    if s == 0 {
        shift = 0;
    } else {
        shift = 64 - s as u64;
    }
    let r = (n >> s as u64) | (n << shift);
    proof {
        let s64 = s as u64;
        if s != 0 {
            assert(r == rotr(n, s64));
        } else {
            assert((n >> 0u64) | (n << 0u64) == n) by (bit_vector);
        }
    }
    r
}

/// Whether bit `n` of `input` is set; `false` for positions past the word.
pub fn get_bit_at(input: u64, n: u8) -> (r: bool)
    ensures
        r == (n < 64 && (input >> (n as u64)) & 1 == 1),
{
    if n < 64 {
        let b = (input >> n as u64) & 1;
        b == 1
    } else {
        false
    }
}

/// A 64 x 32 monochrome framebuffer: one 64-bit word per row, column `c` at bit `63 - c`.
pub struct Display {
    pixels: Vec<u64>,
}

impl Display {
    pub open spec fn wf(&self) -> bool {
        self@.len() == ROWS
    }

    pub closed spec fn view(&self) -> Seq<u64> {
        self.pixels@
    }

    /// A dark framebuffer.
    pub fn new() -> (d: Display)
        ensures
            d.wf(),
            d@ == Seq::new(32, |r: int| 0u64),
    {
        let mut pixels: Vec<u64> = Vec::new();
        let mut k: usize = 0;
        while k < ROWS
            invariant
                k <= ROWS,
                pixels@ == Seq::new(k as nat, |r: int| 0u64),
            decreases ROWS - k,
        {
            pixels.push(0);
            k = k + 1;
        }
        let d = Display { pixels };
        proof {
            assert(d@ =~= Seq::new(32, |r: int| 0u64));
        }
        d
    }

    /// Turns every pixel off.
    pub fn clear(&mut self)
        requires
            old(self).wf(),
        ensures
            final(self).wf(),
            final(self)@ == Seq::new(32, |r: int| 0u64),
    {
        let mut k: usize = 0;
        while k < ROWS
            invariant
                k <= ROWS,
                self.pixels@.len() == ROWS,
                forall|r: int| 0 <= r < k ==> self.pixels@[r] == 0,
            decreases ROWS - k,
        {
            self.pixels.set(k, 0);
            k = k + 1;
        }
        proof {
            assert(self@ =~= Seq::new(32, |r: int| 0u64));
        }
    }

    /// The word of row `r`.
    pub fn row(&self, r: usize) -> (w: u64)
        requires
            self.wf(),
            r < ROWS,
        ensures
            w == self@[r as int],
    {
        self.pixels[r]
    }

    /// Whether the pixel at column `col`, row `r` is lit.
    pub fn pixel(&self, col: usize, r: usize) -> (lit: bool)
        requires
            self.wf(),
            col < 64,
            r < ROWS,
        ensures
            lit == ((self@[r as int] >> ((63 - col) as u64)) & 1 == 1),
    {
        get_bit_at(self.pixels[r], (63 - col) as u8)
    }

    /// XOR-composes the first `n` bytes of `sprite`, one 8-pixel row each, with the
    /// top-left corner at column `x`, row `y`; both axes wrap around. Returns whether
    /// any pixel that was lit got turned off.
    pub fn draw_sprite(&mut self, sprite: &Vec<u8>, n: usize, x: u8, y: u8) -> (collided: bool)
        requires
            old(self).wf(),
            n <= 15,
            n <= sprite@.len(),
        ensures
            final(self).wf(),
            final(self)@ == drawn(old(self)@, sprite@, n as int, x, y),
            collided == collides(old(self)@, sprite@, n as int, x, y),
    {
        let ghost pre = self.pixels@;
        let mut collided = false;
        let y0: usize = (y % 32) as usize;
        let mut row: usize = y0;
        let mut i: usize = 0;
        while i < n
            invariant
                i <= n,
                n <= 15,
                n <= sprite@.len(),
                y0 == y % 32,
                row == if y0 + i < 32 { y0 + i } else { y0 + i - 32 },
                self.pixels@.len() == ROWS,
                pre.len() == ROWS,
                forall|r: int|
                    0 <= r < ROWS ==> self.pixels@[r] == if row_offset(y, r) < i {
                        pre[r] ^ sprite_word(sprite@[row_offset(y, r)], x)
                    } else {
                        pre[r]
                    },
                collided == exists|k: int|
                    0 <= k < i && #[trigger] (pre[target_row(y, k)] & sprite_word(sprite@[k], x))
                        != 0,
            decreases n - i,
        {
            let word = right_rotate((sprite[i] as u64) << 56u64, x % 64);
            let old_row = self.pixels[row];
            assert(row_offset(y, row as int) == i);
            assert(target_row(y, i as int) == row);
            let ghost was = collided;
            assert(old_row == pre[target_row(y, i as int)]);
            assert(word == sprite_word(sprite@[i as int], x));
            if old_row & word != 0 {
                collided = true;
            }
            self.pixels.set(row, old_row ^ word);
            proof {
                assert forall|r: int| 0 <= r < ROWS && r != row implies row_offset(y, r) != i by {}
                if was {
                    let k0 = choose|k: int|
                        0 <= k < i && #[trigger] (pre[target_row(y, k)] & sprite_word(sprite@[k], x))
                            != 0;
                    assert(0 <= k0 < i + 1 && (pre[target_row(y, k0)] & sprite_word(sprite@[k0], x)) != 0);
                } else if collided {
                    assert((pre[target_row(y, i as int)] & sprite_word(sprite@[i as int], x)) != 0);
                } else {
                    assert forall|k: int| 0 <= k < i + 1 implies !(
                        #[trigger] (pre[target_row(y, k)] & sprite_word(sprite@[k], x)) != 0) by {
                        if k == i {
                        }
                    }
                }
            }
            row = if row == 31 { 0 } else { row + 1 };
            i = i + 1;
        }
        proof {
            assert(self@ =~= drawn(pre, sprite@, n as int, x, y));
        }
        collided
    }
}

} // verus!

//! Drawing: reading a sprite from memory and painting it on the display.

use crate::cpu::CPU;
use crate::machine::{bit_string, pixels, Machine, Screen};
use vstd::prelude::*;
use vstd::string::{StrSliceExecFns, StringExecFns};

verus! {

/// Writes a byte out in binary, eight characters wide.
pub fn binary(byte: u8) -> (text: String)
    ensures
        text@ == bit_string(byte),
{
    let mut text = String::new();
    for j in 0..8u8
        invariant
            text@.len() == j,
            forall|n: int| 0 <= n < j ==> text@[n] == bit_string(byte)[n],
    {
        proof {
            reveal_strlit("1");
            reveal_strlit("0");
        }
        if (byte >> (7 - j)) & 1 == 1 {
            text.append("1");
        } else {
            text.append("0");
        }
    }
    text
}

impl CPU {
    /// The rows of the sprite of `d` rows at address `i`, each written out
    /// in binary. A sprite of no rows reads no byte, wherever `i` points.
    pub fn get_display_bits(&self, d: u8) -> (bits: Vec<String>)
        requires
            d > 0 ==> self.i + d <= 4096,
        ensures
            bits@.len() == d,
            forall|k: int| 0 <= k < d ==> (#[trigger] bits@[k])@ == bit_string(self.memory[self.i + k]),
    {
        let mut bits: Vec<String> = Vec::new();
        for k in 0..(d as usize)
            invariant
                d > 0 ==> self.i + d <= 4096,
                bits@.len() == k,
                forall|n: int| 0 <= n < k ==> (#[trigger] bits@[n])@ == bit_string(self.memory[self.i + n]),
        {
            let byte = self.memory[self.i as usize + k];
            bits.push(binary(byte));
        }
        bits
    }

    /// Draws the sprite of `d` rows at address `i` with its top left corner
    /// at column `registers[x]`, row `registers[y]`. A set sprite pixel
    /// toggles the pixel under it; a sprite that reaches over an edge of the
    /// display goes on at the opposite edge. The flag becomes 1 if a lit
    /// pixel was turned off, and 0 otherwise. A sprite of no rows reads no
    /// byte and clears the flag, wherever `i` points.
    pub fn draw(&mut self, x: u8, y: u8, d: u8, screen: &mut Screen)
        requires
            old(self).wf(),
            x < 16,
            y < 16,
            d < 16,
            d > 0 ==> old(self).i + d <= 4096,
        ensures
            final(self).wf(),
            final(self)@ == old(self)@.draw(pixels(*old(screen)), x, y, d),
            pixels(*final(screen)) == old(self)@.drawn(pixels(*old(screen)), x, y, d),
    {
        let bits = self.get_display_bits(d);
        let x_coord = self.registers[x as usize] as usize;
        let y_coord = self.registers[y as usize] as usize;
        let ghost machine = self@;
        let ghost before = pixels(*screen);

        let mut flip_vf = false;
        let mut k: usize = 0;
        assert(pixels(*screen) =~~= partly_drawn(machine, before, x, y, d, 0, 0));
        while k < d as usize
            invariant
                k <= d < 16,
                x < 16,
                y < 16,
                *self == *old(self),
                machine == self@,
                before == pixels(*old(screen)),
                d > 0 ==> self.i + d <= 4096,
                x_coord == self.registers[x as int],
                y_coord == self.registers[y as int],
                bits@.len() == d,
                forall|n: int|
                    0 <= n < d ==> (#[trigger] bits@[n])@ == bit_string(self.memory[self.i + n]),
                pixels(*screen) == partly_drawn(machine, before, x, y, d, k as int, 0),
                flip_vf == collides_before(machine, before, x, y, k as int, 0),
            decreases d - k,
        {
            let row = (y_coord + k) % 32;
            let mut j: usize = 0;
            while j < 8
                invariant
                    j <= 8,
                    k < d < 16,
                    x < 16,
                    y < 16,
                    *self == *old(self),
                    machine == self@,
                    before == pixels(*old(screen)),
                    x_coord == self.registers[x as int],
                    y_coord == self.registers[y as int],
                    row == (y_coord + k) % 32,
                    bits@.len() == d,
                    bits@[k as int]@ == bit_string(self.memory[self.i + k]),
                    pixels(*screen) == partly_drawn(machine, before, x, y, d, k as int, j as int),
                    flip_vf == collides_before(machine, before, x, y, k as int, j as int),
                decreases 8 - j,
            {
                let column = (x_coord + j) % 64;
                let previous = screen[row][column];
                let set = bits[k].as_str().get_char(j) == '1';
                proof {
                    lemma_paint(machine, before, x, y, d, k as int, j as int);
                }
                if set {
                    screen[row][column] = !previous;
                }
                if previous && !screen[row][column] {
                    flip_vf = true;
                }
                assert(pixels(*screen) =~~= partly_drawn(machine, before, x, y, d, k as int, j + 1));
                j += 1;
            }
            assert(partly_drawn(machine, before, x, y, d, k as int, 8) =~~= partly_drawn(
                machine,
                before,
                x,
                y,
                d,
                k + 1,
                0,
            ));
            k += 1;
        }

        if flip_vf {
            self.registers[0xF] = 1;
        } else {
            self.registers[0xF] = 0;
        }
        assert(partly_drawn(machine, before, x, y, d, d as int, 0) =~~= machine.drawn(
            before,
            x,
            y,
            d,
        ));
    }
}

/// The display once the sprite's pixels that come before its row `k`,
/// column `j`, rows first, have been drawn.
spec fn partly_drawn(
    machine: Machine,
    screen: Seq<Seq<bool>>,
    x: u8,
    y: u8,
    d: u8,
    k: int,
    j: int,
) -> Seq<Seq<bool>> {
    Seq::new(
        32,
        |r: int|
            Seq::new(
                64,
                |c: int|
                    {
                        let row = (r - machine.registers[y as int]) % 32;
                        let column = (c - machine.registers[x as int]) % 64;
                        screen[r][c] != ((row < k || (row == k && column < j))
                            && machine.sprite_covers(x, y, d, r, c))
                    },
            ),
    )
}

/// Whether a set sprite pixel that comes before row `k`, column `j` lies
/// on a lit pixel.
spec fn collides_before(
    machine: Machine,
    screen: Seq<Seq<bool>>,
    x: u8,
    y: u8,
    k: int,
    j: int,
) -> bool {
    exists|row: int, column: int|
        0 <= row && 0 <= column < 8 && (row < k || (row == k && column < j))
            && #[trigger] machine.sprite_hits(screen, x, y, row, column)
}

/// What drawing the sprite's pixel in row `k`, column `j` does: the pixel
/// under it, untouched so far, is toggled if the sprite's pixel is set, and
/// all others stay.
proof fn lemma_paint(machine: Machine, screen: Seq<Seq<bool>>, x: u8, y: u8, d: u8, k: int, j: int)
    requires
        0 <= k < d < 16,
        0 <= j < 8,
    ensures
        ({
            let row = (machine.registers[y as int] + k) % 32;
            let column = (machine.registers[x as int] + j) % 64;
            let now = partly_drawn(machine, screen, x, y, d, k, j);
            let next = partly_drawn(machine, screen, x, y, d, k, j + 1);
            &&& now[row][column] == screen[row][column]
            &&& next[row][column] == (screen[row][column] != machine.sprite_bit(k, j))
            &&& forall|r: int, c: int|
                0 <= r < 32 && 0 <= c < 64 && !(r == row && c == column) ==> #[trigger] next[r][c]
                    == now[r][c]
            &&& collides_before(machine, screen, x, y, k, j + 1) <==> collides_before(
                machine,
                screen,
                x,
                y,
                k,
                j,
            ) || machine.sprite_hits(screen, x, y, k, j)
        }),
{
    let vx = machine.registers[x as int] as int;
    let vy = machine.registers[y as int] as int;
    let row = (vy + k) % 32;
    let column = (vx + j) % 64;
    let now = partly_drawn(machine, screen, x, y, d, k, j);
    let next = partly_drawn(machine, screen, x, y, d, k, j + 1);
    assert((row - vy) % 32 == k && (column - vx) % 64 == j);
    assert forall|r: int, c: int|
        0 <= r < 32 && 0 <= c < 64 && !(r == row && c == column) implies #[trigger] next[r][c]
        == now[r][c] by {
        assert((r - vy) % 32 == k ==> r == row);
        assert((c - vx) % 64 == j ==> c == column);
    }
}

} // verus!

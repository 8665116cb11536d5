//! What a driver needs between two events of its window: one cycle of the
//! processor, what to do next, and where the lit pixels go on a canvas.

use crate::cpu::CPU;
use crate::machine::{pixels, step, Fault, Screen};
use vstd::prelude::*;

verus! {

/// The distance on the canvas from one pixel's square to the next.
pub const PITCH: usize = 12;

/// The distance of the first square from the canvas's top and left edges.
pub const MARGIN: usize = 4;

/// The length of a square's side.
pub const SIDE: usize = 10;

/// A processor that a driver runs one cycle per event.
pub struct Game {
    pub cpu: CPU,
}

/// What the driver does after an event.
#[derive(Clone, Copy, Debug, PartialEq, Eq, Structural)]
pub enum Tick {
    /// The program has halted: leave the event loop.
    Stop,
    /// Wait for the next event.
    Wait,
    /// Paint the display, then wait for the next event.
    Paint,
}

/// What the driver does once a cycle has ended with `signal`, on an event
/// that asks for painting if `render` is set. A halted program stops the
/// driver before it paints.
pub open spec fn reaction(signal: Result<Option<()>, Fault>, render: bool) -> Result<Tick, Fault> {
    match signal {
        Err(fault) => Err(fault),
        Ok(None) => Ok(Tick::Stop),
        Ok(Some(_)) => Ok(
            if render {
                Tick::Paint
            } else {
                Tick::Wait
            },
        ),
    }
}

/// The top left corner, as `(x, y)`, of the square for the pixel in row `r`,
/// column `c`.
pub open spec fn corner_of(r: int, c: int) -> (usize, usize) {
    ((c * PITCH + MARGIN) as usize, (r * PITCH + MARGIN) as usize)
}

/// The top left corners of the squares for the lit pixels among the first
/// `n` of the display, counted row by row.
pub open spec fn squares_before(screen: Seq<Seq<bool>>, n: int) -> Seq<(usize, usize)> {
    Seq::new(n as nat, |k: int| k).filter(|k: int| screen[k / 64][k % 64]).map_values(
        |k: int| corner_of(k / 64, k % 64),
    )
}

/// The top left corners of the squares for all lit pixels, row by row.
pub open spec fn squares_of(screen: Seq<Seq<bool>>) -> Seq<(usize, usize)> {
    squares_before(screen, 2048)
}

proof fn lemma_squares_next(screen: Seq<Seq<bool>>, n: int)
    requires
        0 <= n,
    ensures
        squares_before(screen, n + 1) == if screen[n / 64][n % 64] {
            squares_before(screen, n).push(corner_of(n / 64, n % 64))
        } else {
            squares_before(screen, n)
        },
{
    broadcast use Seq::lemma_filter_push;

    let lit = |k: int| screen[k / 64][k % 64];
    let corner = |k: int| corner_of(k / 64, k % 64);
    let cells = Seq::new(n as nat, |k: int| k);
    assert(Seq::new((n + 1) as nat, |k: int| k) =~= cells.push(n));
    if lit(n) {
        assert(cells.filter(lit).push(n).map_values(corner) =~= cells.filter(lit).map_values(
            corner,
        ).push(corner(n)));
    }
}

/// The top left corners of the squares to paint, one for each lit pixel,
/// row by row.
pub fn squares(screen: &Screen) -> (corners: Vec<(usize, usize)>)
    ensures
        corners@ == squares_of(pixels(*screen)),
{
    let mut corners: Vec<(usize, usize)> = Vec::new();
    let mut row_ind: usize = 0;
    while row_ind < 32
        invariant
            row_ind <= 32,
            corners@ == squares_before(pixels(*screen), row_ind * 64),
        decreases 32 - row_ind,
    {
        let mut col_ind: usize = 0;
        while col_ind < 64
            invariant
                row_ind < 32,
                col_ind <= 64,
                corners@ == squares_before(pixels(*screen), row_ind * 64 + col_ind),
            decreases 64 - col_ind,
        {
            proof {
                lemma_squares_next(pixels(*screen), row_ind * 64 + col_ind);
            }
            if screen[row_ind][col_ind] {
                corners.push((col_ind * PITCH + MARGIN, row_ind * PITCH + MARGIN));
            }
            col_ind += 1;
        }
        row_ind += 1;
    }
    corners
}

impl Game {
    /// A game around a processor that is about to run.
    pub fn new(cpu: CPU) -> (game: Game)
        ensures
            game.cpu == cpu,
    {
        Game { cpu }
    }

    /// Runs one cycle of the processor on an event of the driver, and says
    /// what the driver does next.
    pub fn tick(&mut self, screen: &mut Screen, render: bool) -> (next: Result<Tick, Fault>)
        requires
            old(self).cpu.wf(),
        ensures
            final(self).cpu.wf(),
            exists|random: u8|
                random >= 1 && ({
                    let (machine, display, signal) = #[trigger] step(
                        old(self).cpu@,
                        pixels(*old(screen)),
                        random,
                    );
                    &&& final(self).cpu@ == machine
                    &&& pixels(*final(screen)) == display
                    &&& next == reaction(signal, render)
                }),
    {
        match self.cpu.run(screen) {
            Err(fault) => Err(fault),
            Ok(None) => Ok(Tick::Stop),
            Ok(Some(_)) => {
                if render {
                    Ok(Tick::Paint)
                } else {
                    Ok(Tick::Wait)
                }
            },
        }
    }
}

} // verus!

//! One game session: the board configuration, the snake, and the fruit.
//!
//! The session glues the snake simulation to fruit placement: after each
//! tick, if the head stands on the fruit's cell, the snake is granted the
//! growth bonus and a fresh fruit cell is drawn uniformly from the whole
//! grid (deliberately not excluding cells the snake occupies).

use vstd::prelude::*;

use crate::conf::GameConf;
use crate::snake::{in_grid, Cell, Snake, SnakeView, GROWTH_BONUS};
use rand::Rng;

verus! {

/// Relies on rand::Rng::gen_range on the range `0..n`, which panics on an
/// empty range and otherwise samples a value of that range; the generator
/// is the thread-local one from rand::thread_rng.
#[verifier::external_body]
fn random_below(n: u64) -> (r: u64)
    requires
        n > 0,
    ensures
        r < n,
{
    rand::thread_rng().gen_range(0..n)
}

/// Draws one cell uniformly from a `cols` by `rows` board: a single
/// index below `cols * rows` is sampled and split into column and row.
fn random_cell(cols: u32, rows: u32) -> (c: Cell)
    requires
        cols >= 1,
        rows >= 1,
    ensures
        in_grid((c.x as int, c.y as int), cols as int, rows as int),
{
    proof {
        assert(1 <= cols * rows && cols * rows <= u64::MAX) by (nonlinear_arith)
            requires
                1 <= cols <= u32::MAX,
                1 <= rows <= u32::MAX,
        ;
    }
    let n: u64 = cols as u64 * rows as u64;
    let idx: u64 = random_below(n);
    let x: u64 = idx % cols as u64;
    let y: u64 = idx / cols as u64;
    proof {
        assert(x < cols && y < rows) by (nonlinear_arith)
            requires
                cols >= 1,
                rows >= 1,
                idx < cols * rows,
                x == idx % (cols as u64),
                y == idx / (cols as u64),
        ;
    }
    Cell { x: x as i64, y: y as i64 }
}

/// A running game: fixed configuration, the snake, and the fruit's cell.
pub struct Game {
    /// The immutable board configuration of this session.
    pub conf: GameConf,
    /// The snake being simulated.
    pub snake: Snake,
    /// The cell the fruit currently occupies.
    pub fruit: Cell,
}

impl Game {
    /// A session is well formed when its configuration is, the fruit lies
    /// on the board, the snake state is structurally sound, and a live
    /// snake stands entirely on the board.
    pub open spec fn wf(self) -> bool {
        &&& self.conf.wf()
        &&& in_grid((self.fruit.x as int, self.fruit.y as int), self.conf.cols as int, self.conf.rows as int)
        &&& self.snake@.wf()
        &&& self.snake@.alive ==> self.snake@.on_board(self.conf.cols as int, self.conf.rows as int)
    }

    /// Starts a session: the snake hatches at the centre of the board and
    /// the first fruit is drawn uniformly from the whole grid.
    pub fn new(conf: GameConf) -> (g: Game)
        requires
            conf.wf(),
        ensures
            g.conf == conf,
            g.snake@ == Snake::initial(Cell { x: (conf.cols / 2) as i64, y: (conf.rows / 2) as i64 }),
            g.wf(),
    {
        let head = Cell { x: conf.cols as i64 / 2, y: conf.rows as i64 / 2 };
        let g = Game { conf, snake: Snake::new(head), fruit: random_cell(conf.cols, conf.rows) };
        g
    }

    /// Replaces the fruit by a cell drawn uniformly from the whole grid.
    /// The draw does not exclude cells occupied by the snake: the fruit
    /// may land on a body segment, exactly as the rules intend.
    pub fn new_fruit(&mut self)
        requires
            old(self).conf.wf(),
        ensures
            final(self).conf == old(self).conf,
            final(self).snake == old(self).snake,
            in_grid(
                (final(self).fruit.x as int, final(self).fruit.y as int),
                old(self).conf.cols as int,
                old(self).conf.rows as int,
            ),
    {
        self.fruit = random_cell(self.conf.cols, self.conf.rows);
    }

    /// Runs one simulation tick: the snake advances; if its head then
    /// stands on the fruit's cell, the growth bonus is granted and a new
    /// fruit is drawn. The configuration never changes, and unless the
    /// fruit was eaten it stays where it was.
    pub fn tick(&mut self)
        requires
            old(self).wf(),
            old(self).snake@.alive,
            old(self).snake@.growth + GROWTH_BONUS <= u64::MAX,
        ensures
            final(self).conf == old(self).conf,
            final(self).wf(),
            ({
                let s = Snake::step(old(self).snake@, old(self).conf.cols as int, old(self).conf.rows as int);
                let ate = s.head == old(self).fruit;
                &&& final(self).snake@ == (if ate {
                    SnakeView { growth: (s.growth + GROWTH_BONUS) as nat, ..s }
                } else {
                    s
                })
                &&& !ate ==> final(self).fruit == old(self).fruit
                &&& in_grid(
                    (final(self).fruit.x as int, final(self).fruit.y as int),
                    old(self).conf.cols as int,
                    old(self).conf.rows as int,
                )
            }),
    {
        let cols = self.conf.cols;
        let rows = self.conf.rows;
        self.snake.advance_tick(cols, rows);
        proof {
            crate::snake::lemma_step_preserves_wf(
                old(self).snake@,
                cols as int,
                rows as int,
            );
        }
        if self.snake.head.x == self.fruit.x && self.snake.head.y == self.fruit.y {
            self.snake.on_fruit_eaten();
            self.new_fruit();
        }
    }
}

} // verus!

//! The snake simulation: a deterministic state machine advanced once per
//! tick. It owns the snake's head, trailing body, pending growth, heading,
//! alive flag and the bounded queue of requested direction changes.
//!
//! The whole transition is captured by the specification function
//! [`Snake::step`]; `advance_tick` is proved to realise it exactly.

use vstd::prelude::*;

use crate::direction::{spec_opposite, Direction};
use std::collections::VecDeque;

verus! {

/// Number of body segments the snake still owes itself at the start of a
/// session (the snake hatches with this much pending growth).
pub const INITIAL_GROWTH: u64 = 3;

/// Extra pending growth granted for each fruit eaten.
pub const GROWTH_BONUS: u64 = 2;

/// Capacity of the queue of buffered direction requests.
pub const INPUT_BUFFER_LIMIT: usize = 3;

/// One cell of the grid, addressed by column (`x`) and row (`y`).
///
/// Coordinates are signed so that the cell one step beyond the board edge
/// can be written down and rejected; a live snake only ever occupies cells
/// with both coordinates in `[0, cols) x [0, rows)`.
#[derive(Copy, Clone, Debug, PartialEq, Eq, Structural)]
pub struct Cell {
    pub x: i64,
    pub y: i64,
}

/// The abstract state of a snake: what every contract in this module
/// speaks about.
#[verifier::ext_equal]
pub ghost struct SnakeView {
    /// The cell at the front of the snake.
    pub head: Cell,
    /// Trailing body cells, most recently occupied first. Does not
    /// include the head.
    pub tail: Seq<Cell>,
    /// Number of upcoming ticks on which the tail end is kept instead of
    /// trimmed.
    pub growth: nat,
    /// The heading the next tick will move along.
    pub heading: Direction,
    /// False once the snake has collided; a dead snake never changes again.
    pub alive: bool,
    /// Buffered direction requests, oldest first.
    pub queue: Seq<Direction>,
    /// Capacity of the request queue.
    pub limit: nat,
}

/// Does the point `p` lie on a board of `cols` columns and `rows` rows?
pub open spec fn in_grid(p: (int, int), cols: int, rows: int) -> bool {
    0 <= p.0 < cols && 0 <= p.1 < rows
}

/// Does some cell of `tail` lie at the point `p`?
pub open spec fn hits(tail: Seq<Cell>, p: (int, int)) -> bool {
    exists|i: int| 0 <= i < tail.len() && tail[i].x == p.0 && tail[i].y == p.1
}

/// The point one step from `head` along `heading`. Written over
/// unbounded integers: one step off the board is representable and is
/// what the collision test rejects.
pub open spec fn target(head: Cell, heading: Direction) -> (int, int) {
    match heading {
        Direction::Up => (head.x as int, head.y - 1),
        Direction::Down => (head.x as int, head.y + 1),
        Direction::Left => (head.x - 1, head.y as int),
        Direction::Right => (head.x + 1, head.y as int),
    }
}

impl SnakeView {
    /// Structural soundness of a snake state: the request queue respects
    /// its capacity and the body never contains the head's cell.
    pub open spec fn wf(self) -> bool {
        &&& self.queue.len() <= self.limit
        &&& !hits(self.tail, (self.head.x as int, self.head.y as int))
    }

    /// Every cell the snake occupies lies on the board.
    pub open spec fn on_board(self, cols: int, rows: int) -> bool {
        &&& in_grid((self.head.x as int, self.head.y as int), cols, rows)
        &&& forall|i: int|
            0 <= i < self.tail.len() ==> in_grid(
                (#[trigger] self.tail[i].x as int, self.tail[i].y as int),
                cols,
                rows,
            )
    }
}

impl Snake {
    /// The state a fresh snake starts a session in: at `head`, heading
    /// `Up`, alive, with empty body and queue and the initial growth debt.
    pub open spec fn initial(head: Cell) -> SnakeView {
        SnakeView {
            head,
            tail: Seq::empty(),
            growth: INITIAL_GROWTH as nat,
            heading: Direction::Up,
            alive: true,
            queue: Seq::empty(),
            limit: INPUT_BUFFER_LIMIT as nat,
        }
    }

    /// The complete per-tick transition on a board of `cols` by `rows`
    /// cells, for a live snake.
    ///
    /// The move target is computed from the current heading; leaving the
    /// board or landing on any cell of the pre-tick body is death, which
    /// freezes the state apart from the alive flag. Otherwise the head
    /// advances, the vacated head cell becomes the newest body segment,
    /// the tail end is trimmed unless growth is pending, and the oldest
    /// queued direction request (if any) is consumed: it becomes the new
    /// heading unless it is the exact opposite of the heading that was
    /// just moved along, in which case it is discarded.
    pub open spec fn step(s: SnakeView, cols: int, rows: int) -> SnakeView {
        let t = target(s.head, s.heading);
        if !in_grid(t, cols, rows) || hits(s.tail, t) {
            SnakeView { alive: false, ..s }
        } else {
            let moved = seq![s.head] + s.tail;
            SnakeView {
                head: Cell { x: t.0 as i64, y: t.1 as i64 },
                tail: if s.growth > 0 {
                    moved
                } else {
                    moved.drop_last()
                },
                growth: if s.growth > 0 {
                    (s.growth - 1) as nat
                } else {
                    0
                },
                heading: if s.queue.len() > 0 && s.queue[0] != spec_opposite(s.heading) {
                    s.queue[0]
                } else {
                    s.heading
                },
                queue: if s.queue.len() > 0 {
                    s.queue.subrange(1, s.queue.len() as int)
                } else {
                    s.queue
                },
                ..s
            }
        }
    }

    /// What `enqueue_direction` does: append the request if the snake is
    /// alive and the queue has room, otherwise change nothing.
    pub open spec fn enqueue_step(s: SnakeView, d: Direction) -> SnakeView {
        if s.alive && s.queue.len() < s.limit {
            SnakeView { queue: s.queue.push(d), ..s }
        } else {
            s
        }
    }
}

/// Law: a tick taken while alive changes the body length by exactly 0 or
/// +1. On a surviving tick the body grows by one exactly when growth was
/// pending at tick start; a fatal tick leaves the body untouched.
pub proof fn lemma_step_tail_growth(s: SnakeView, cols: int, rows: int)
    requires
        s.alive,
    ensures
        ({
            let s2 = Snake::step(s, cols, rows);
            &&& s2.tail.len() == s.tail.len() || s2.tail.len() == s.tail.len() + 1
            &&& s2.alive ==> (s2.tail.len() == s.tail.len() + 1 <==> s.growth > 0)
            &&& !s2.alive ==> s2.tail == s.tail
        }),
{
}

/// Law: moving into any cell outside the board is fatal, whatever the
/// heading: the snake is dead afterwards and its head, body, growth,
/// heading and queue are left exactly as they were.
pub proof fn lemma_wall_is_fatal(s: SnakeView, cols: int, rows: int)
    requires
        s.alive,
        !in_grid(target(s.head, s.heading), cols, rows),
    ensures
        ({
            let s2 = Snake::step(s, cols, rows);
            &&& !s2.alive
            &&& s2.head == s.head
            &&& s2.tail == s.tail
            &&& s2.growth == s.growth
            &&& s2.heading == s.heading
            &&& s2.queue == s.queue
        }),
{
}

/// Law: moving into a cell occupied by any segment of the pre-tick body
/// is fatal — the collision test runs against the body as it stands
/// before the tick's push and trim, so the cell still held by the tail
/// end counts. The state is frozen apart from the alive flag.
pub proof fn lemma_body_collision_is_fatal(s: SnakeView, cols: int, rows: int)
    requires
        s.alive,
        hits(s.tail, target(s.head, s.heading)),
    ensures
        ({
            let s2 = Snake::step(s, cols, rows);
            &&& !s2.alive
            &&& s2.head == s.head
            &&& s2.tail == s.tail
            &&& s2.growth == s.growth
            &&& s2.heading == s.heading
            &&& s2.queue == s.queue
        }),
{
}

/// Law: the request queue never outgrows its capacity, and a request
/// arriving at a full queue is dropped outright — the state is left
/// exactly as it was.
pub proof fn lemma_enqueue_respects_limit(s: SnakeView, d: Direction)
    requires
        s.queue.len() <= s.limit,
    ensures
        Snake::enqueue_step(s, d).queue.len() <= s.limit,
        s.queue.len() == s.limit ==> Snake::enqueue_step(s, d) == s,
{
}

/// Law: a surviving tick consumes exactly the oldest queued request, and
/// judges it against the heading active at consumption time: a request
/// exactly opposite that heading is discarded and the heading stands;
/// any other request becomes the new heading.
pub proof fn lemma_queue_consumption(s: SnakeView, cols: int, rows: int)
    requires
        s.alive,
        in_grid(target(s.head, s.heading), cols, rows),
        !hits(s.tail, target(s.head, s.heading)),
        s.queue.len() > 0,
    ensures
        ({
            let s2 = Snake::step(s, cols, rows);
            &&& s2.queue == s.queue.subrange(1, s.queue.len() as int)
            &&& s.queue[0] == spec_opposite(s.heading) ==> s2.heading == s.heading
            &&& s.queue[0] != spec_opposite(s.heading) ==> s2.heading == s.queue[0]
        }),
{
}

/// Law: the bonus from one fruit is observable as two extra non-trimmed
/// ticks: a snake with no pending growth that eats once and then survives
/// two ticks gains exactly two body segments.
pub proof fn lemma_bonus_two_ticks(s: SnakeView, cols: int, rows: int)
    requires
        s.alive,
        s.growth == 0,
    ensures
        ({
            let e = SnakeView { growth: (s.growth + GROWTH_BONUS) as nat, ..s };
            let s1 = Snake::step(e, cols, rows);
            let s2 = Snake::step(s1, cols, rows);
            s1.alive && s2.alive ==> s2.tail.len() == s.tail.len() + 2
        }),
{
}

/// Law: one tick preserves structural soundness — the queue stays within
/// its capacity and the body never captures the head's cell — and a snake
/// that survives the tick still stands entirely on the board.
pub proof fn lemma_step_preserves_wf(s: SnakeView, cols: int, rows: int)
    requires
        s.wf(),
        s.alive,
        s.on_board(cols, rows),
        cols <= i64::MAX,
        rows <= i64::MAX,
    ensures
        Snake::step(s, cols, rows).wf(),
        Snake::step(s, cols, rows).alive ==> Snake::step(s, cols, rows).on_board(cols, rows),
{
    let t = target(s.head, s.heading);
    let s2 = Snake::step(s, cols, rows);
    if in_grid(t, cols, rows) && !hits(s.tail, t) {
        let nh = Cell { x: t.0 as i64, y: t.1 as i64 };
        assert(nh.x == t.0 && nh.y == t.1);
        let moved = seq![s.head] + s.tail;
        assert(!(s.head.x == t.0 && s.head.y == t.1));
        assert forall|i: int| 0 <= i < moved.len() implies !(#[trigger] moved[i].x == t.0
            && moved[i].y == t.1) by {
            if i > 0 {
                assert(moved[i] == s.tail[i - 1]);
                assert(!(s.tail[i - 1].x == t.0 && s.tail[i - 1].y == t.1));
            }
        }
        assert(!hits(s2.tail, (nh.x as int, nh.y as int))) by {
            if hits(s2.tail, (nh.x as int, nh.y as int)) {
                let i = choose|i: int|
                    0 <= i < s2.tail.len() && s2.tail[i].x == t.0 && s2.tail[i].y == t.1;
                assert(s2.tail[i] == moved[i]);
            }
        }
        assert forall|i: int| 0 <= i < s2.tail.len() implies in_grid(
            (#[trigger] s2.tail[i].x as int, s2.tail[i].y as int),
            cols,
            rows,
        ) by {
            assert(s2.tail[i] == moved[i]);
            if i > 0 {
                assert(moved[i] == s.tail[i - 1]);
            }
        }
    }
}

/// The live snake of one game session.
pub struct Snake {
    /// The cell at the front of the snake.
    pub head: Cell,
    /// Trailing body cells, most recently occupied first.
    pub tail: VecDeque<Cell>,
    /// Pending growth: ticks on which the tail end will be kept.
    pub growth: u64,
    /// Current heading.
    pub direction: Direction,
    /// False once the snake has collided.
    pub alive: bool,
    /// Buffered direction requests, oldest first.
    pub input_buffer: VecDeque<Direction>,
    /// Capacity of `input_buffer`.
    pub input_buffer_limit: usize,
}

impl View for Snake {
    type V = SnakeView;

    open spec fn view(&self) -> SnakeView {
        SnakeView {
            head: self.head,
            tail: self.tail@,
            growth: self.growth as nat,
            heading: self.direction,
            alive: self.alive,
            queue: self.input_buffer@,
            limit: self.input_buffer_limit as nat,
        }
    }
}

impl Snake {
    /// Hatches a snake at `head`: heading `Up`, empty body and queue,
    /// the initial growth debt pending.
    pub fn new(head: Cell) -> (s: Snake)
        ensures
            s@ == Snake::initial(head),
    {
        Snake {
            head,
            tail: VecDeque::new(),
            growth: INITIAL_GROWTH,
            direction: Direction::Up,
            alive: true,
            input_buffer: VecDeque::new(),
            input_buffer_limit: INPUT_BUFFER_LIMIT,
        }
    }

    /// Does any body segment lie on the cell `c`?
    fn tail_contains(&self, c: Cell) -> (r: bool)
        ensures
            r == hits(self.tail@, (c.x as int, c.y as int)),
    {
        let mut i: usize = 0;
        while i < self.tail.len()
            invariant
                i <= self.tail@.len(),
                forall|j: int|
                    0 <= j < i ==> !(#[trigger] self.tail@[j].x == c.x && self.tail@[j].y == c.y),
            decreases self.tail@.len() - i,
        {
            if self.tail[i].x == c.x && self.tail[i].y == c.y {
                return true;
            }
            i = i + 1;
        }
        false
    }

    /// Slides the body one cell forward: the vacated head cell becomes
    /// the newest segment; the tail end is kept (consuming one unit of
    /// pending growth) or trimmed.
    fn update_tail(&mut self)
        ensures
            final(self)@ == (SnakeView {
                tail: if old(self)@.growth > 0 {
                    seq![old(self)@.head] + old(self)@.tail
                } else {
                    (seq![old(self)@.head] + old(self)@.tail).drop_last()
                },
                growth: if old(self)@.growth > 0 {
                    (old(self)@.growth - 1) as nat
                } else {
                    0
                },
                ..old(self)@
            }),
    {
        self.tail.push_front(self.head);
        if self.growth == 0 {
            let _ = self.tail.pop_back();
            proof {
                assert(self@.tail =~= (seq![old(self)@.head] + old(self)@.tail).drop_last());
                assert(self@ =~= (SnakeView {
                    tail: (seq![old(self)@.head] + old(self)@.tail).drop_last(),
                    growth: 0,
                    ..old(self)@
                }));
            }
        } else {
            self.growth = self.growth - 1;
            proof {
                assert(self@ =~= (SnakeView {
                    tail: seq![old(self)@.head] + old(self)@.tail,
                    growth: (old(self)@.growth - 1) as nat,
                    ..old(self)@
                }));
            }
        }
    }

    /// Advances the simulation by exactly one tick on a board of `cols`
    /// by `rows` cells. Defined only for a live snake whose head is on
    /// the board; realises [`Snake::step`] exactly.
    pub fn advance_tick(&mut self, cols: u32, rows: u32)
        requires
            old(self)@.alive,
            in_grid((old(self)@.head.x as int, old(self)@.head.y as int), cols as int, rows as int),
        ensures
            final(self)@ == Snake::step(old(self)@, cols as int, rows as int),
    {
        let cand: Cell = match self.direction {
            Direction::Up => Cell { x: self.head.x, y: self.head.y - 1 },
            Direction::Down => Cell { x: self.head.x, y: self.head.y + 1 },
            Direction::Left => Cell { x: self.head.x - 1, y: self.head.y },
            Direction::Right => Cell { x: self.head.x + 1, y: self.head.y },
        };
        proof {
            assert((cand.x as int, cand.y as int) == target(old(self)@.head, old(self)@.heading));
        }
        if cand.x < 0 || cand.y < 0 || cand.x >= cols as i64 || cand.y >= rows as i64
            || self.tail_contains(cand) {
            self.alive = false;
            proof {
                assert(self@ =~= Snake::step(old(self)@, cols as int, rows as int));
            }
        } else {
            self.update_tail();
            self.head = cand;
            let popped = self.input_buffer.pop_front();
            if let Some(d) = popped {
                if d != self.direction.opposite() {
                    self.direction = d;
                }
            }
            proof {
                assert(self@ =~= Snake::step(old(self)@, cols as int, rows as int));
            }
        }
    }

    /// Buffers a requested direction change. The request is appended if
    /// the snake is alive and the queue is below its capacity; otherwise
    /// it is silently dropped — a full queue is a normal condition, not
    /// an error.
    pub fn enqueue_direction(&mut self, d: Direction)
        ensures
            final(self)@ == Snake::enqueue_step(old(self)@, d),
    {
        if self.alive && self.input_buffer.len() < self.input_buffer_limit {
            self.input_buffer.push_back(d);
            proof {
                assert(self@ =~= Snake::enqueue_step(old(self)@, d));
            }
        } else {
            proof {
                assert(self@ =~= Snake::enqueue_step(old(self)@, d));
            }
        }
    }

    /// Grants the fixed growth bonus for one eaten fruit: pending growth
    /// rises by exactly [`GROWTH_BONUS`]; nothing else changes.
    pub fn on_fruit_eaten(&mut self)
        requires
            old(self)@.growth + GROWTH_BONUS <= u64::MAX,
        ensures
            final(self)@ == (SnakeView { growth: (old(self)@.growth + GROWTH_BONUS) as nat, ..old(self)@ }),
    {
        self.growth = self.growth + GROWTH_BONUS;
        proof {
            assert(self@ =~= (SnakeView {
                growth: (old(self)@.growth + GROWTH_BONUS) as nat,
                ..old(self)@
            }));
        }
    }
}

} // verus!

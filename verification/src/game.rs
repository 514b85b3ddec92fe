use vstd::prelude::*;
use crate::rng::random_coord;

verus! {

/// Number of cells along each edge of the playing grid. A cell whose
/// coordinates exceed this value (or drop below zero) counts as a wall hit;
/// the bound itself is still playable, a deliberate off-by-one of the game.
pub const MAP_SIZE: i32 = 32;

/// How many random draws apple placement makes before it falls back to a
/// deterministic scan for a free cell (the scan keeps the placement loop
/// provably terminating).
pub const APPLE_ROLL_TRIES: u32 = 128;

/// Edge of one rendered cell, in pixels.
pub const TILE_SIZE: i32 = 16;

/// Movement direction of the snake; `NotMoving` holds only before the first
/// direction intent arrives, or right after a reset.
#[derive(Clone, Copy, PartialEq, Eq, Structural, Debug)]
pub enum Direction {
    NotMoving,
    Left,
    Right,
    Up,
    Down,
}

/// A grid cell, in cell coordinates (not pixels).
#[derive(Clone, Copy, PartialEq, Eq, Structural, Debug)]
pub struct Position {
    pub x: i32,
    pub y: i32,
}

/// The whole game state: one snake, one apple, one score.
///
/// `parts` holds the trailing body segments; index 0 is the segment next to
/// the head, the last index is the tail. The head itself is not in `parts`.
pub struct Snake {
    pub head: Position,
    pub parts: Vec<Position>,
    pub dir: Direction,
    pub apple: Position,
    pub score: u32,
}

/// `req` is the exact reverse of `cur` (the one change of direction that the
/// game refuses while the snake has a body).
pub open spec fn is_reverse(req: Direction, cur: Direction) -> bool {
    ||| (req is Left && cur is Right)
    ||| (req is Right && cur is Left)
    ||| (req is Up && cur is Down)
    ||| (req is Down && cur is Up)
}

/// The reverse of a direction; `NotMoving` has none and maps to itself.
pub open spec fn opposite(d: Direction) -> Direction {
    match d {
        Direction::NotMoving => Direction::NotMoving,
        Direction::Left => Direction::Right,
        Direction::Right => Direction::Left,
        Direction::Up => Direction::Down,
        Direction::Down => Direction::Up,
    }
}

/// The direction the snake moves in after a request `req` arrives while it
/// moves in `cur` with `body_len` trailing segments: a reversal is ignored
/// once the body is non-empty, everything else is taken as is.
pub open spec fn next_direction(body_len: nat, cur: Direction, req: Direction) -> Direction {
    if body_len > 0 && is_reverse(req, cur) {
        cur
    } else {
        req
    }
}

/// Where the head ends up after one step in direction `d`.
pub open spec fn moved_head(h: Position, d: Direction) -> Position {
    match d {
        Direction::NotMoving => h,
        Direction::Left => (Position { x: (h.x - 1) as i32, y: h.y }),
        Direction::Right => (Position { x: (h.x + 1) as i32, y: h.y }),
        Direction::Up => (Position { x: h.x, y: (h.y - 1) as i32 }),
        Direction::Down => (Position { x: h.x, y: (h.y + 1) as i32 }),
    }
}

/// The cell lies outside the playable area. The upper bound is inclusive of
/// `MAP_SIZE` itself: one row and column beyond the nominal grid stay
/// playable, a quirk of the game that is kept on purpose.
pub open spec fn hits_wall(p: Position) -> bool {
    p.x < 0 || p.x > MAP_SIZE || p.y < 0 || p.y > MAP_SIZE
}

/// The body after one step: every segment takes the place of its neighbour
/// on the head side, the segment next to the head takes the old head cell,
/// and the old tail cell is given up.
pub open spec fn shifted(prev: Position, body: Seq<Position>) -> Seq<Position>
    recommends
        body.len() > 0,
{
    seq![prev] + body.drop_last()
}

/// The range apple placement draws candidate cells from: both coordinates in
/// `[0, MAP_SIZE - 2]`.
pub open spec fn in_regen_range(p: Position) -> bool {
    0 <= p.x <= MAP_SIZE - 2 && 0 <= p.y <= MAP_SIZE - 2
}

/// Cell `p` is not occupied by the head or any body segment.
pub open spec fn cell_free(head: Position, body: Seq<Position>, p: Position) -> bool {
    p != head && !body.contains(p)
}

/// Some cell in the placement range is unoccupied, so a new apple can land.
pub open spec fn has_free_cell(head: Position, body: Seq<Position>) -> bool {
    exists|p: Position| in_regen_range(p) && #[trigger] cell_free(head, body, p)
}

/// The apple does not sit on the head or on a body segment.
pub open spec fn apple_clear(s: Snake) -> bool {
    s.apple != s.head && !s.parts@.contains(s.apple)
}

/// The state `reset` leaves behind: snake back at the origin with no body,
/// standing still, score wiped, and an apple that sits on a free cell.
pub open spec fn is_reset_state(s: Snake) -> bool {
    &&& s.head == (Position { x: 0, y: 0 })
    &&& s.parts@.len() == 0
    &&& s.dir is NotMoving
    &&& s.score == 0
    &&& apple_clear(s)
}

/// The next tick ends in a terminal collision: the moved head lands on a
/// body segment, or leaves the playable area.
pub open spec fn tick_collides(s: Snake) -> bool {
    s.parts@.contains(moved_head(s.head, s.dir)) || hits_wall(moved_head(s.head, s.dir))
}

/// The next tick eats the apple: the moved head lands on it without a
/// terminal collision (the body check comes first, the wall check second,
/// and only then the apple).
pub open spec fn tick_eats(s: Snake) -> bool {
    !tick_collides(s) && moved_head(s.head, s.dir) == s.apple
}

/// Linear scan for `p` among the body segments.
fn seq_has(parts: &Vec<Position>, p: Position) -> (r: bool)
    ensures
        r == parts@.contains(p),
{
    let mut i: usize = 0;
    while i < parts.len()
        invariant
            i <= parts@.len(),
            forall|j: int| 0 <= j < i ==> parts@[j] != p,
        decreases parts@.len() - i,
    {
        if parts[i] == p {
            return true;
        }
        i += 1;
    }
    false
}

/// Row-major scan of the placement range for the first unoccupied cell;
/// `None` only when every candidate cell is taken.
fn pick_free_cell(head: Position, parts: &Vec<Position>) -> (r: Option<Position>)
    ensures
        match r {
            Some(p) => in_regen_range(p) && cell_free(head, parts@, p),
            None => !has_free_cell(head, parts@),
        },
{
    let mut x: i32 = 0;
    while x <= MAP_SIZE - 2
        invariant
            0 <= x <= MAP_SIZE - 1,
            forall|p: Position|
                in_regen_range(p) && p.x < x ==> !#[trigger] cell_free(head, parts@, p),
        decreases MAP_SIZE - 1 - x,
    {
        let mut y: i32 = 0;
        while y <= MAP_SIZE - 2
            invariant
                0 <= x <= MAP_SIZE - 2,
                0 <= y <= MAP_SIZE - 1,
                forall|p: Position|
                    in_regen_range(p) && p.x < x ==> !#[trigger] cell_free(head, parts@, p),
                forall|p: Position|
                    in_regen_range(p) && p.x == x && p.y < y
                        ==> !#[trigger] cell_free(head, parts@, p),
            decreases MAP_SIZE - 1 - y,
        {
            let c = Position { x, y };
            if c != head && !seq_has(parts, c) {
                return Some(c);
            }
            y += 1;
        }
        x += 1;
    }
    proof {
        assert(!has_free_cell(head, parts@)) by {
            if has_free_cell(head, parts@) {
                let p = choose|p: Position|
                    in_regen_range(p) && #[trigger] cell_free(head, parts@, p);
                assert(!cell_free(head, parts@, p));
            }
        }
    }
    None
}

impl Snake {
    /// The apple sits on a free cell right now.
    fn apple_is_clear(&self) -> (r: bool)
        ensures
            r == apple_clear(*self),
    {
        self.apple != self.head && !seq_has(&self.parts, self.apple)
    }

    /// Re-roll the apple until it lands on a cell free of the head and body,
    /// drawing both coordinates from `[0, MAP_SIZE - 2]`. An apple that is
    /// already clear is left exactly where it is. The random draws are
    /// bounded; if they all collide, the first free cell in row-major order
    /// is taken, so the apple is clear whenever any free cell exists at all.
    pub fn apple_gen(&mut self)
        ensures
            final(self).head == old(self).head,
            final(self).parts@ == old(self).parts@,
            final(self).dir == old(self).dir,
            final(self).score == old(self).score,
            apple_clear(*old(self)) ==> final(self).apple == old(self).apple,
            has_free_cell(old(self).head, old(self).parts@) ==> apple_clear(*final(self)),
            final(self).apple == old(self).apple || in_regen_range(final(self).apple),
    {
        let mut clear = self.apple_is_clear();
        let mut tries: u32 = 0;
        while !clear && tries < APPLE_ROLL_TRIES
            invariant
                self.head == old(self).head,
                self.parts@ == old(self).parts@,
                self.dir == old(self).dir,
                self.score == old(self).score,
                clear == apple_clear(*self),
                apple_clear(*old(self)) ==> self.apple == old(self).apple,
                self.apple == old(self).apple || in_regen_range(self.apple),
            decreases APPLE_ROLL_TRIES - tries,
        {
            self.apple.x = random_coord(0, MAP_SIZE - 1);
            self.apple.y = random_coord(0, MAP_SIZE - 1);
            clear = self.apple_is_clear();
            tries += 1;
        }
        if !clear {
            match pick_free_cell(self.head, &self.parts) {
                Some(p) => {
                    self.apple = p;
                },
                None => {},
            }
        }
    }

    /// A fresh game: snake at the origin with no body, standing still, zero
    /// score, and an apple drawn with both coordinates from
    /// `[1, MAP_SIZE - 2]` — a narrower range than later re-rolls use,
    /// another quirk of the game that is kept on purpose.
    pub fn new() -> (s: Snake)
        ensures
            s.head == (Position { x: 0, y: 0 }),
            s.parts@.len() == 0,
            s.dir is NotMoving,
            s.score == 0,
            1 <= s.apple.x <= MAP_SIZE - 2,
            1 <= s.apple.y <= MAP_SIZE - 2,
            apple_clear(s),
    {
        let s = Snake {
            head: Position { x: 0, y: 0 },
            parts: Vec::new(),
            dir: Direction::NotMoving,
            apple: Position {
                x: random_coord(1, MAP_SIZE - 1),
                y: random_coord(1, MAP_SIZE - 1),
            },
            score: 0,
        };
        s
    }

    /// Put the game back in its starting state after a terminal collision:
    /// head to the origin, body emptied, direction cleared, score wiped. The
    /// apple is re-rolled only when the origin now sits under it; any apple
    /// off the origin survives the reset unchanged, which also makes reset
    /// idempotent.
    pub fn reset(&mut self)
        ensures
            is_reset_state(*final(self)),
            old(self).apple != (Position { x: 0, y: 0 }) ==> final(self).apple == old(self).apple,
            final(self).apple == old(self).apple || in_regen_range(final(self).apple),
    {
        self.head = Position { x: 0, y: 0 };
        self.parts.clear();
        self.dir = Direction::NotMoving;
        proof {
            let w = Position { x: 1, y: 1 };
            assert(in_regen_range(w) && cell_free(self.head, self.parts@, w));
        }
        self.apple_gen();
        self.score = 0;
    }

    /// One frame of play. The head moves one cell along the current
    /// direction; landing on a body segment or beyond the walls resets the
    /// whole game; landing on the apple scores and grows the body by one
    /// segment; in every surviving tick the body shifts one step toward the
    /// head, the front segment taking the cell the head just left. After an
    /// apple is eaten the apple is re-rolled against the shifted body, so
    /// the new apple avoids the new head and every new segment, the one on
    /// the just-vacated head cell included. The result is always `Ok`: game
    /// over is handled internally and the `Result` only mirrors the
    /// caller-facing shape of a frame step.
    pub fn update(&mut self) -> (r: Result<(), String>)
        requires
            i32::MIN < old(self).head.x < i32::MAX,
            i32::MIN < old(self).head.y < i32::MAX,
            old(self).score < u32::MAX,
        ensures
            r is Ok,
            tick_collides(*old(self)) ==> is_reset_state(*final(self))
                && (old(self).apple != (Position { x: 0, y: 0 })
                    ==> final(self).apple == old(self).apple)
                && (final(self).apple == old(self).apple
                    || in_regen_range(final(self).apple)),
            tick_eats(*old(self)) ==> ({
                let m = moved_head(old(self).head, old(self).dir);
                let grown = seq![old(self).head] + old(self).parts@;
                &&& final(self).head == m
                &&& final(self).dir == old(self).dir
                &&& final(self).score == old(self).score + 1
                &&& final(self).parts@ == grown
                &&& final(self).apple == old(self).apple
                    || in_regen_range(final(self).apple)
                &&& has_free_cell(m, grown) ==> (final(self).apple != m
                    && !grown.contains(final(self).apple)
                    && in_regen_range(final(self).apple))
            }),
            !tick_collides(*old(self)) && !tick_eats(*old(self)) ==> ({
                &&& final(self).head == moved_head(old(self).head, old(self).dir)
                &&& final(self).dir == old(self).dir
                &&& final(self).score == old(self).score
                &&& final(self).apple == old(self).apple
                &&& final(self).parts@ == (if old(self).parts@.len() == 0 {
                    old(self).parts@
                } else {
                    shifted(old(self).head, old(self).parts@)
                })
            }),
    {
        let prev = self.head;
        match self.dir {
            Direction::Left => {
                self.head.x = self.head.x - 1;
            },
            Direction::Right => {
                self.head.x = self.head.x + 1;
            },
            Direction::Up => {
                self.head.y = self.head.y - 1;
            },
            Direction::Down => {
                self.head.y = self.head.y + 1;
            },
            Direction::NotMoving => {},
        }
        if seq_has(&self.parts, self.head) {
            self.reset();
            return Ok(());
        }
        if self.head.x < 0 || self.head.x > MAP_SIZE || self.head.y < 0 || self.head.y > MAP_SIZE
        {
            self.reset();
            return Ok(());
        }
        let ate = self.head == self.apple;
        if ate {
            self.score = self.score + 1;
            if self.parts.len() == 0 {
                let h = self.head;
                self.parts.push(h);
            } else {
                let t = self.parts[self.parts.len() - 1];
                self.parts.push(t);
            }
        }
        if self.parts.len() > 0 {
            let ghost pre = self.parts@;
            let ghost head0 = self.head;
            let ghost dir0 = self.dir;
            let ghost apple0 = self.apple;
            let ghost score0 = self.score;
            let mut carry: Position = prev;
            let mut i: usize = 0;
            while i < self.parts.len()
                invariant
                    self.parts@.len() == pre.len(),
                    i <= pre.len(),
                    carry == (if i == 0 {
                        prev
                    } else {
                        pre[i - 1]
                    }),
                    forall|j: int| 0 <= j < i ==> self.parts@[j] == (if j == 0 {
                        prev
                    } else {
                        pre[j - 1]
                    }),
                    forall|j: int| i <= j < pre.len() ==> self.parts@[j] == pre[j],
                    self.head == head0,
                    self.dir == dir0,
                    self.apple == apple0,
                    self.score == score0,
                decreases pre.len() - i,
            {
                let tmp = self.parts[i];
                self.parts.set(i, carry);
                carry = tmp;
                i += 1;
            }
            assert(self.parts@ =~= shifted(prev, pre));
            proof {
                if tick_eats(*old(self)) {
                    assert(pre.drop_last() =~= old(self).parts@);
                    assert(self.parts@ =~= seq![old(self).head] + old(self).parts@);
                }
            }
        }
        if ate {
            self.apple_gen();
        }
        Ok(())
    }

    /// Steer the snake. While the body is non-empty, a request for the exact
    /// reverse of the current direction is ignored; any other request (the
    /// reverse included, while the body is empty) takes effect at once.
    pub fn change_direction(&mut self, new_dir: Direction)
        ensures
            final(self).dir == next_direction(old(self).parts@.len(), old(self).dir, new_dir),
            final(self).head == old(self).head,
            final(self).parts@ == old(self).parts@,
            final(self).apple == old(self).apple,
            final(self).score == old(self).score,
    {
        if self.parts.len() > 0 {
            match new_dir {
                Direction::Left => {
                    if self.dir == Direction::Right {
                        return;
                    }
                },
                Direction::Right => {
                    if self.dir == Direction::Left {
                        return;
                    }
                },
                Direction::Up => {
                    if self.dir == Direction::Down {
                        return;
                    }
                },
                Direction::Down => {
                    if self.dir == Direction::Up {
                        return;
                    }
                },
                Direction::NotMoving => {},
            }
            self.dir = new_dir;
        } else {
            self.dir = new_dir;
        }
    }
}

/// Pixel origin of the square that renders grid cell `p`: each coordinate
/// scaled by `TILE_SIZE`. The renderer draws one such square per occupied
/// cell.
pub fn tile_origin(p: Position) -> (r: (i32, i32))
    requires
        i32::MIN <= p.x * TILE_SIZE <= i32::MAX,
        i32::MIN <= p.y * TILE_SIZE <= i32::MAX,
    ensures
        r.0 == p.x * TILE_SIZE,
        r.1 == p.y * TILE_SIZE,
{
    (p.x * TILE_SIZE, p.y * TILE_SIZE)
}

/// Law: while the body is non-empty, a request for the exact reverse of the
/// current direction leaves the direction unchanged. This covers
/// `NotMoving` too, whose "reverse" is itself.
pub proof fn lemma_reverse_request_is_noop(body_len: nat, cur: Direction)
    requires
        body_len > 0,
    ensures
        next_direction(body_len, cur, opposite(cur)) == cur,
{
}

/// Law: while the body is empty, every direction request takes effect,
/// whatever direction the snake had before.
pub proof fn lemma_empty_body_takes_any(cur: Direction, req: Direction)
    ensures
        next_direction(0, cur, req) == req,
{
}

/// Law: the body shift is exact. After the shift, the segment next to the
/// head holds the cell the head just left, and every other segment holds
/// the cell its neighbour on the head side held before; the length is kept.
pub proof fn lemma_shift_correct(prev: Position, body: Seq<Position>)
    requires
        body.len() >= 2,
    ensures
        shifted(prev, body).len() == body.len(),
        shifted(prev, body)[0] == prev,
        forall|i: int| 1 <= i < body.len() ==> shifted(prev, body)[i] == body[i - 1],
{
}

} // verus!

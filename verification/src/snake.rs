//! The snake simulation state machine: input resolution, movement with
//! toroidal wraparound, self-collision detection, eating, growth, and the
//! full reset that answers a game over.

use vstd::prelude::*;
use crate::GameOverEvent;
use crate::Position;

verus! {

/// The facing direction of the snake's head.
#[derive(PartialEq, Eq, Structural, Copy, Clone, Debug)]
pub enum Direction {
    Left,
    Up,
    Right,
    Down,
}

impl Direction {
    /// The direction pointing the opposite way.
    pub open spec fn spec_opposite(self) -> Direction {
        match self {
            Direction::Left => Direction::Right,
            Direction::Right => Direction::Left,
            Direction::Up => Direction::Down,
            Direction::Down => Direction::Up,
        }
    }

    /// Returns the opposite direction.
    pub fn opposite(self) -> (r: Direction)
        ensures
            r == self.spec_opposite(),
    {
        match self {
            Direction::Left => Direction::Right,
            Direction::Right => Direction::Left,
            Direction::Up => Direction::Down,
            Direction::Down => Direction::Up,
        }
    }
}

/// The snake's head: it carries the current facing direction. The head's
/// position is the first entry of the segment list.
#[derive(PartialEq, Eq, Structural, Copy, Clone, Debug)]
pub struct Snakehead {
    pub direction: Direction,
}

/// The snake's body: an ordered list of grid positions, head first.
#[derive(Clone, Debug)]
pub struct SnakeSegments(pub Vec<Position>);

/// The position the tail vacated during the most recent movement step, if a
/// movement step has happened at all. A newly grown segment is placed here.
#[derive(PartialEq, Eq, Structural, Copy, Clone, Debug)]
pub struct LastTailPosition(pub Option<Position>);

/// Signal that the snake ate one food item this tick; the growth step
/// consumes all signals of a tick at once and appends one segment.
#[derive(Copy, Clone, Debug)]
pub struct GrowthEvent;

/// The phases of one simulation tick, in the order the driving loop must run
/// them: input resolution, then movement, then eating, then growth.
#[derive(PartialEq, Eq, Structural, Copy, Clone, Hash, Debug)]
pub enum SnakeState {
    Input,
    Movement,
    Eating,
    Growth,
}

/// The direction the pending input resolves to: the highest-priority pressed
/// key wins (up, then down, then left, then right); no key keeps `current`;
/// and a resolved direction opposite to `current` is rejected, so the snake
/// can never reverse into itself.
pub open spec fn spec_resolve(
    current: Direction,
    up: bool,
    down: bool,
    left: bool,
    right: bool,
) -> Direction {
    let wanted = if up {
        Direction::Up
    } else if down {
        Direction::Down
    } else if left {
        Direction::Left
    } else if right {
        Direction::Right
    } else {
        current
    };
    if wanted == current.spec_opposite() {
        current
    } else {
        wanted
    }
}

/// Resolves the currently pressed direction keys against the snake's current
/// direction, as `spec_resolve` describes.
pub fn resolve_direction(
    current: Direction,
    up: bool,
    down: bool,
    left: bool,
    right: bool,
) -> (r: Direction)
    ensures
        r == spec_resolve(current, up, down, left, right),
{
    let wanted = if up {
        Direction::Up
    } else if down {
        Direction::Down
    } else if left {
        Direction::Left
    } else if right {
        Direction::Right
    } else {
        current
    };
    if wanted == current.opposite() {
        current
    } else {
        wanted
    }
}

/// One coordinate after the wraparound step. The grid is toroidal with the
/// asymmetric bound the game uses: a coordinate may sit at `bound` itself for
/// one step; only a coordinate beyond `bound` re-enters at 0, and one below 0
/// re-enters at `bound`.
pub open spec fn wrap_coord(c: int, bound: int) -> int {
    if c < 0 {
        bound
    } else if c > bound {
        0
    } else {
        c
    }
}

/// Horizontal displacement of one step in direction `d`.
pub open spec fn dir_dx(d: Direction) -> int {
    match d {
        Direction::Left => -1,
        Direction::Right => 1,
        Direction::Up => 0,
        Direction::Down => 0,
    }
}

/// Vertical displacement of one step in direction `d`.
pub open spec fn dir_dy(d: Direction) -> int {
    match d {
        Direction::Up => 1,
        Direction::Down => -1,
        Direction::Left => 0,
        Direction::Right => 0,
    }
}

/// The head position after one step in direction `d`, wrapped into the grid
/// whose last column is `w` and last row is `h`.
pub open spec fn step_pos(p: Position, d: Direction, w: int, h: int) -> Position {
    Position {
        x: wrap_coord(p.x as int + dir_dx(d), w) as i32,
        y: wrap_coord(p.y as int + dir_dy(d), h) as i32,
    }
}

/// The segment list after one movement step: the new head in front, every
/// body segment in the position its predecessor held, the tail's old
/// position dropped.
pub open spec fn moved_segments(segs: Seq<Position>, new_head: Position) -> Seq<Position> {
    seq![new_head] + segs.drop_last()
}

/// Whether a move onto `new_head` collides with the snake: the check runs
/// against the pre-move segment positions.
pub open spec fn collides(pre_move_segs: Seq<Position>, new_head: Position) -> bool {
    pre_move_segs.contains(new_head)
}

/// The food list after the eating step: every item on the head's cell is
/// removed, all others stay in order.
pub open spec fn remaining_foods(foods: Seq<Position>, head: Position) -> Seq<Position>
    decreases foods.len(),
{
    if foods.len() == 0 {
        Seq::empty()
    } else if foods.last() == head {
        remaining_foods(foods.drop_last(), head)
    } else {
        remaining_foods(foods.drop_last(), head).push(foods.last())
    }
}

/// The segment list after the growth step: one segment is appended at the
/// recorded tail position when at least one growth signal is present and a
/// tail position has been recorded; otherwise the list is unchanged.
pub open spec fn grown_segments(
    segs: Seq<Position>,
    tail: Option<Position>,
    growth_signals: int,
) -> Seq<Position> {
    if growth_signals > 0 && tail is Some {
        segs.push(tail.unwrap())
    } else {
        segs
    }
}

/// The canonical freshly spawned snake: a head and one body segment below it.
pub open spec fn canonical_segments() -> Seq<Position> {
    seq![Position { x: 3, y: 3 }, Position { x: 3, y: 2 }]
}

/// The whole simulation state: the arena bounds, the snake, the live food
/// cells and the recorded last tail position.
#[derive(Clone, Debug)]
pub struct GameState {
    /// Index of the last grid column; a head coordinate may reach it before
    /// wrapping on the next step.
    pub width: i32,
    /// Index of the last grid row, with the same bound behaviour.
    pub height: i32,
    pub head: Snakehead,
    pub segments: SnakeSegments,
    pub foods: Vec<Position>,
    pub last_tail: LastTailPosition,
}

impl GameState {
    /// Well-formedness: positive bounds that leave room for the wraparound
    /// arithmetic, a snake of at least head plus one body segment, and a head
    /// inside the (inclusive) wraparound bounds.
    pub open spec fn wf(self) -> bool {
        &&& 0 < self.width < i32::MAX
        &&& 0 < self.height < i32::MAX
        &&& self.segments.0@.len() >= 2
        &&& 0 <= self.segments.0@[0].x <= self.width
        &&& 0 <= self.segments.0@[0].y <= self.height
    }

    /// The head's position: the first segment.
    pub open spec fn head_pos(self) -> Position {
        self.segments.0@[0]
    }

    /// A fresh game: the canonical snake facing up, no food, no recorded tail
    /// position.
    pub fn new(width: i32, height: i32) -> (s: GameState)
        requires
            3 <= width < i32::MAX,
            3 <= height < i32::MAX,
        ensures
            s.wf(),
            s.width == width,
            s.height == height,
            s.segments.0@ == canonical_segments(),
            s.head.direction == Direction::Up,
            s.foods@ == Seq::<Position>::empty(),
            s.last_tail.0 is None,
    {
        let mut s = GameState {
            width,
            height,
            head: Snakehead { direction: Direction::Up },
            segments: SnakeSegments(Vec::new()),
            foods: Vec::new(),
            last_tail: LastTailPosition(None),
        };
        s.spawn_snake();
        s
    }

    /// Replaces the snake with the canonical freshly spawned one: head at
    /// (3, 3) facing up, one body segment at (3, 2). Food and the recorded
    /// tail position are untouched.
    pub fn spawn_snake(&mut self)
        requires
            3 <= old(self).width < i32::MAX,
            3 <= old(self).height < i32::MAX,
        ensures
            final(self).wf(),
            final(self).segments.0@ == canonical_segments(),
            final(self).head.direction == Direction::Up,
            final(self).width == old(self).width,
            final(self).height == old(self).height,
            final(self).foods@ == old(self).foods@,
            final(self).last_tail == old(self).last_tail,
    {
        let mut v: Vec<Position> = Vec::new();
        v.push(Position { x: 3, y: 3 });
        v.push(Position { x: 3, y: 2 });
        proof {
            assert(v@ =~= canonical_segments());
        }
        self.segments = SnakeSegments(v);
        self.head = Snakehead { direction: Direction::Up };
    }

    /// Appends one body segment at `position`.
    pub fn spawn_segment(&mut self, position: Position)
        ensures
            final(self).segments.0@ == old(self).segments.0@.push(position),
            final(self).head == old(self).head,
            final(self).width == old(self).width,
            final(self).height == old(self).height,
            final(self).foods@ == old(self).foods@,
            final(self).last_tail == old(self).last_tail,
    {
        self.segments.0.push(position);
    }

    /// Applies the pending direction keys to the snake's direction, as
    /// `spec_resolve` describes; nothing else changes.
    pub fn snake_movement_input(&mut self, up: bool, down: bool, left: bool, right: bool)
        ensures
            final(self).head.direction == spec_resolve(
                old(self).head.direction,
                up,
                down,
                left,
                right,
            ),
            final(self).segments.0@ == old(self).segments.0@,
            final(self).width == old(self).width,
            final(self).height == old(self).height,
            final(self).foods@ == old(self).foods@,
            final(self).last_tail == old(self).last_tail,
            old(self).wf() ==> final(self).wf(),
    {
        let d = resolve_direction(self.head.direction, up, down, left, right);
        self.head = Snakehead { direction: d };
    }

    /// One movement step: the head advances one cell in its direction and
    /// wraps at the arena's edges; every body segment takes its
    /// predecessor's position; the tail's vacated position is recorded; and
    /// a game over signal is returned exactly when the new head position was
    /// occupied by any pre-move segment.
    pub fn snake_movement(&mut self) -> (event: Option<GameOverEvent>)
        requires
            old(self).wf(),
        ensures
            final(self).wf(),
            final(self).segments.0@ == moved_segments(
                old(self).segments.0@,
                step_pos(
                    old(self).head_pos(),
                    old(self).head.direction,
                    old(self).width as int,
                    old(self).height as int,
                ),
            ),
            final(self).last_tail.0 == Some(old(self).segments.0@.last()),
            event is Some <==> collides(
                old(self).segments.0@,
                step_pos(
                    old(self).head_pos(),
                    old(self).head.direction,
                    old(self).width as int,
                    old(self).height as int,
                ),
            ),
            final(self).head == old(self).head,
            final(self).width == old(self).width,
            final(self).height == old(self).height,
            final(self).foods@ == old(self).foods@,
    {
        let ghost old_segs = self.segments.0@;
        let w = self.width;
        let h = self.height;
        let head0 = self.segments.0[0];
        let mut nx = head0.x;
        let mut ny = head0.y;
        match self.head.direction {
            Direction::Up => {
                ny = ny + 1;
            }
            Direction::Down => {
                ny = ny - 1;
            }
            Direction::Left => {
                nx = nx - 1;
            }
            Direction::Right => {
                nx = nx + 1;
            }
        }
        if nx < 0 {
            nx = w;
        }
        if nx > w {
            nx = 0;
        }
        if ny < 0 {
            ny = h;
        }
        if ny > h {
            ny = 0;
        }
        let new_head = Position { x: nx, y: ny };
        proof {
            assert(new_head == step_pos(head0, self.head.direction, w as int, h as int));
        }

        let collided = contains_pos(&self.segments.0, new_head);

        let n = self.segments.0.len();
        let mut new_segs: Vec<Position> = Vec::new();
        new_segs.push(new_head);
        let mut i: usize = 0;
        while i + 1 < n
            invariant
                n == self.segments.0@.len(),
                i + 1 <= n,
                new_segs@.len() == i + 1,
                new_segs@[0] == new_head,
                forall|j: int| 1 <= j <= i ==> new_segs@[j] == self.segments.0@[j - 1],
            decreases n - i,
        {
            let p = self.segments.0[i];
            new_segs.push(p);
            i = i + 1;
        }
        let tail = self.segments.0[n - 1];
        self.last_tail = LastTailPosition(Some(tail));
        self.segments = SnakeSegments(new_segs);
        proof {
            assert(self.segments.0@ =~= moved_segments(old_segs, new_head));
        }

        if collided {
            Some(GameOverEvent)
        } else {
            None
        }
    }

    /// The eating step: every food item on the head's cell is removed, and
    /// one growth signal is returned for each item removed.
    pub fn snake_eating(&mut self) -> (events: Vec<GrowthEvent>)
        requires
            old(self).wf(),
        ensures
            final(self).wf(),
            final(self).foods@ == remaining_foods(old(self).foods@, old(self).head_pos()),
            events@.len() + final(self).foods@.len() == old(self).foods@.len(),
            final(self).segments.0@ == old(self).segments.0@,
            final(self).head == old(self).head,
            final(self).width == old(self).width,
            final(self).height == old(self).height,
            final(self).last_tail == old(self).last_tail,
    {
        let head_pos = self.segments.0[0];
        let ghost old_foods = self.foods@;
        let mut kept: Vec<Position> = Vec::new();
        let mut events: Vec<GrowthEvent> = Vec::new();
        let mut i: usize = 0;
        while i < self.foods.len()
            invariant
                self.foods@ == old_foods,
                i <= old_foods.len(),
                kept@ == remaining_foods(old_foods.take(i as int), head_pos),
                kept@.len() + events@.len() == i,
            decreases old_foods.len() - i,
        {
            let f = self.foods[i];
            if f == head_pos {
                events.push(GrowthEvent);
            } else {
                kept.push(f);
            }
            proof {
                assert(old_foods.take(i as int + 1).drop_last() =~= old_foods.take(i as int));
                assert(old_foods.take(i as int + 1).last() == old_foods[i as int]);
            }
            i = i + 1;
        }
        proof {
            assert(old_foods.take(old_foods.len() as int) =~= old_foods);
        }
        self.foods = kept;
        events
    }

    /// The growth step: when at least one growth signal arrived this tick
    /// and a tail position has been recorded, exactly one segment is
    /// appended there; with no signal, or before any movement has recorded a
    /// tail position, nothing changes.
    pub fn snake_growth(&mut self, events: &Vec<GrowthEvent>)
        requires
            old(self).wf(),
        ensures
            final(self).wf(),
            final(self).segments.0@ == grown_segments(
                old(self).segments.0@,
                old(self).last_tail.0,
                events@.len() as int,
            ),
            final(self).head == old(self).head,
            final(self).width == old(self).width,
            final(self).height == old(self).height,
            final(self).foods@ == old(self).foods@,
            final(self).last_tail == old(self).last_tail,
    {
        if events.len() > 0 {
            match self.last_tail.0 {
                Some(t) => {
                    self.segments.0.push(t);
                }
                None => {}
            }
        }
    }

    /// The game over step: when a signal is present, all food is despawned
    /// and the canonical snake is respawned; the recorded tail position
    /// survives, as it is overwritten by the next movement step anyway.
    pub fn game_over(&mut self, event: Option<GameOverEvent>)
        requires
            old(self).wf(),
            3 <= old(self).width,
            3 <= old(self).height,
        ensures
            final(self).wf(),
            final(self).width == old(self).width,
            final(self).height == old(self).height,
            final(self).last_tail == old(self).last_tail,
            event is Some ==> {
                &&& final(self).segments.0@ == canonical_segments()
                &&& final(self).head.direction == Direction::Up
                &&& final(self).foods@ == Seq::<Position>::empty()
            },
            event is None ==> {
                &&& final(self).segments.0@ == old(self).segments.0@
                &&& final(self).head == old(self).head
                &&& final(self).foods@ == old(self).foods@
            },
    {
        match event {
            Some(_) => {
                self.foods = Vec::new();
                self.spawn_snake();
            }
            None => {}
        }
    }

    /// One full movement tick, in the fixed order the game runs its steps:
    /// move and wrap, detect self-collision against the pre-move body, eat,
    /// grow, and answer a game over with the full reset. The returned signal
    /// says whether this tick ended in a game over.
    pub fn movement_tick(&mut self) -> (event: Option<GameOverEvent>)
        requires
            old(self).wf(),
            3 <= old(self).width,
            3 <= old(self).height,
        ensures
            final(self).wf(),
            final(self).width == old(self).width,
            final(self).height == old(self).height,
            final(self).last_tail.0 == Some(old(self).segments.0@.last()),
            ({
                let new_head = step_pos(
                    old(self).head_pos(),
                    old(self).head.direction,
                    old(self).width as int,
                    old(self).height as int,
                );
                let moved = moved_segments(old(self).segments.0@, new_head);
                let rem = remaining_foods(old(self).foods@, new_head);
                let signals = old(self).foods@.len() - rem.len();
                &&& (event is Some <==> collides(old(self).segments.0@, new_head))
                &&& if event is Some {
                    &&& final(self).segments.0@ == canonical_segments()
                    &&& final(self).head.direction == Direction::Up
                    &&& final(self).foods@ == Seq::<Position>::empty()
                } else {
                    &&& final(self).segments.0@ == grown_segments(
                        moved,
                        Some(old(self).segments.0@.last()),
                        signals,
                    )
                    &&& final(self).foods@ == rem
                    &&& final(self).head == old(self).head
                }
            }),
    {
        let event = self.snake_movement();
        let growth = self.snake_eating();
        self.snake_growth(&growth);
        self.game_over(event);
        event
    }
}

/// Whether `p` occurs in `v`.
fn contains_pos(v: &Vec<Position>, p: Position) -> (r: bool)
    ensures
        r == v@.contains(p),
{
    let mut i: usize = 0;
    while i < v.len()
        invariant
            i <= v@.len(),
            forall|j: int| 0 <= j < i ==> v@[j] != p,
        decreases v@.len() - i,
    {
        if v[i] == p {
            proof {
                assert(v@[i as int] == p);
            }
            return true;
        }
        i = i + 1;
    }
    false
}

/// Law: pressing only the key for the opposite of the current direction
/// leaves the direction unchanged.
pub proof fn lemma_no_reversal(d: Direction)
    ensures
        spec_resolve(
            d,
            d.spec_opposite() == Direction::Up,
            d.spec_opposite() == Direction::Down,
            d.spec_opposite() == Direction::Left,
            d.spec_opposite() == Direction::Right,
        ) == d,
{
}

/// Law: a step right from the grid's last column re-enters at column zero,
/// and a step left out of column zero re-enters at the last column.
pub proof fn lemma_wraparound(p: Position, w: int, h: int)
    requires
        0 < w <= i32::MAX,
        0 < h <= i32::MAX,
    ensures
        p.x as int == w ==> step_pos(p, Direction::Right, w, h).x == 0,
        p.x == 0 ==> step_pos(p, Direction::Left, w, h).x as int == w,
{
}

/// Law: after one move of a three-segment snake, the new head leads, each
/// body segment holds the position its predecessor held, and the tail's old
/// position is the one recorded for growth.
pub proof fn lemma_body_follow(p0: Position, p1: Position, p2: Position, new_head: Position)
    ensures
        moved_segments(seq![p0, p1, p2], new_head) == seq![new_head, p0, p1],
        seq![p0, p1, p2].last() == p2,
{
    assert(moved_segments(seq![p0, p1, p2], new_head) =~= seq![new_head, p0, p1]);
}

/// The eating step never grows the food list.
pub proof fn lemma_remaining_foods_le(foods: Seq<Position>, head: Position)
    ensures
        remaining_foods(foods, head).len() <= foods.len(),
    decreases foods.len(),
{
    if foods.len() > 0 {
        lemma_remaining_foods_le(foods.drop_last(), head);
    }
}

/// After the eating step no food is left on the head's cell.
pub proof fn lemma_remaining_foods_no_head(foods: Seq<Position>, head: Position)
    ensures
        !remaining_foods(foods, head).contains(head),
    decreases foods.len(),
{
    if foods.len() > 0 {
        lemma_remaining_foods_no_head(foods.drop_last(), head);
        if foods.last() != head {
            let rest = remaining_foods(foods.drop_last(), head);
            assert forall|i: int|
                0 <= i < rest.push(foods.last()).len() implies rest.push(foods.last())[i]
                != head by {
                if i < rest.len() {
                    assert(rest.push(foods.last())[i] == rest[i]);
                    assert(!rest.contains(head));
                }
            }
        }
    }
}

/// Eating a food that sits on the head's cell makes the food list strictly
/// shorter.
pub proof fn lemma_remaining_foods_removes(foods: Seq<Position>, head: Position)
    requires
        foods.contains(head),
    ensures
        remaining_foods(foods, head).len() < foods.len(),
    decreases foods.len(),
{
    if foods.last() == head {
        lemma_remaining_foods_le(foods.drop_last(), head);
    } else {
        let i = choose|i: int| 0 <= i < foods.len() && foods[i] == head;
        assert(foods.drop_last()[i] == head);
        assert(foods.drop_last().contains(head));
        lemma_remaining_foods_removes(foods.drop_last(), head);
    }
}

/// Law: when the head shares a cell with at least one food item, the eating
/// step removes every food on that cell and raises at least one growth
/// signal, and the growth step that consumes the signals appends exactly one
/// segment at the recorded tail position.
pub proof fn lemma_eating_triggers_growth(
    foods: Seq<Position>,
    head: Position,
    segs: Seq<Position>,
    t: Position,
)
    requires
        foods.contains(head),
    ensures
        !remaining_foods(foods, head).contains(head),
        foods.len() - remaining_foods(foods, head).len() >= 1,
        grown_segments(
            segs,
            Some(t),
            foods.len() - remaining_foods(foods, head).len(),
        ).len() == segs.len() + 1,
        grown_segments(segs, Some(t), foods.len() - remaining_foods(foods, head).len()).last()
            == t,
{
    lemma_remaining_foods_no_head(foods, head);
    lemma_remaining_foods_removes(foods, head);
}

/// Law: a move whose new head lands on any pre-move segment reports a
/// collision, and the reset that answers it restores the canonical
/// two-segment snake with no food left.
pub proof fn lemma_self_collision_resets(segs: Seq<Position>, d: Direction, w: int, h: int)
    requires
        segs.len() >= 1,
        segs.contains(step_pos(segs[0], d, w, h)),
    ensures
        collides(segs, step_pos(segs[0], d, w, h)),
        canonical_segments().len() == 2,
        canonical_segments()[0] == (Position { x: 3, y: 3 }),
        canonical_segments()[1] == (Position { x: 3, y: 2 }),
{
}

} // verus!

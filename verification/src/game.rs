//! The game state machine: the owned game state, the per-frame stages
//! (input buffering, direction update, movement, game over, eating,
//! growth), the food spawner, and the laws the stages obey.
//!
//! Each stage is specified against a mathematical model of the state
//! ([`StateView`]) and a spec-level step function, so the exact effect of
//! every stage — and of a whole frame — is pinned down.

use vstd::prelude::*;

use crate::food::{choose_cell, gen_all_positions, Food};
use crate::grid::{contains_position, in_arena, within_walls, Position, ARENA_HEIGHT, ARENA_WIDTH};
use crate::snake::{
    chosen_direction, opposite_of, Direction, KeyInput, LastInputDirection, LastTailPosition,
    SnakeHead, SnakeSegments,
};

verus! {

/// The mathematical model of one game state: what every contract of the
/// stage functions speaks about.
#[verifier::ext_equal]
pub struct StateView {
    /// The head's facing direction.
    pub direction: Direction,
    /// Whether the head has advanced since the last accepted direction
    /// change.
    pub moved: bool,
    /// The positions of the snake's cells, head first.
    pub chain: Seq<Position>,
    /// The food objects currently on the arena, in spawn order.
    pub foods: Seq<Food>,
    /// The cell the tail vacated during the most recent movement tick.
    pub last_tail: Option<Position>,
    /// The direction buffered by the input stage this frame.
    pub buffered: Option<Direction>,
    /// The one-shot growth signal, raised by eating, consumed by growth.
    pub growth: bool,
    /// The one-shot game-over signal, raised by movement, consumed by
    /// the reset stage.
    pub game_over: bool,
}

/// The whole game state, exclusively owned and threaded through the
/// stages; no other writer mutates it.
pub struct GameState {
    pub head: SnakeHead,
    pub segments: SnakeSegments,
    pub foods: Vec<Food>,
    pub last_tail_position: LastTailPosition,
    pub last_input_direction: LastInputDirection,
    pub growth_signal: bool,
    pub game_over_signal: bool,
}

impl View for GameState {
    type V = StateView;

    open spec fn view(&self) -> StateView {
        StateView {
            direction: self.head.direction,
            moved: self.head.moved,
            chain: self.segments.0@,
            foods: self.foods@,
            last_tail: self.last_tail_position.0,
            buffered: self.last_input_direction.0,
            growth: self.growth_signal,
            game_over: self.game_over_signal,
        }
    }
}

/// The chain the snake starts from (and is reset to): a head and one
/// tail segment at fixed positions.
pub open spec fn start_chain() -> Seq<Position> {
    seq![Position { x: 3, y: 3 }, Position { x: 3, y: 2 }]
}

/// The state at startup: the two-cell starting chain facing up, no food,
/// no buffered input, no pending signals.
pub open spec fn start_view() -> StateView {
    StateView {
        direction: Direction::Up,
        moved: false,
        chain: start_chain(),
        foods: Seq::empty(),
        last_tail: None,
        buffered: None,
        growth: false,
        game_over: false,
    }
}

/// The cell one grid unit from `p` in direction `d`.
pub open spec fn step_position(p: Position, d: Direction) -> Position {
    match d {
        Direction::Up => Position { x: p.x, y: (p.y + 1) as i32 },
        Direction::Down => Position { x: p.x, y: (p.y - 1) as i32 },
        Direction::Left => Position { x: (p.x - 1) as i32, y: p.y },
        Direction::Right => Position { x: (p.x + 1) as i32, y: p.y },
    }
}

/// Whether moving the head one unit in its current direction stays
/// within the machine integer range (a machine limit, not a game rule).
pub open spec fn can_step(v: StateView) -> bool {
    match v.direction {
        Direction::Up => v.chain[0].y < i32::MAX,
        Direction::Down => v.chain[0].y > i32::MIN,
        Direction::Left => v.chain[0].x > i32::MIN,
        Direction::Right => v.chain[0].x < i32::MAX,
    }
}

/// Whether the head has room to step in any direction (a machine limit,
/// needed before a frame whose direction update is not yet known).
pub open spec fn head_strictly_inside(v: StateView) -> bool {
    i32::MIN < v.chain[0].x < i32::MAX && i32::MIN < v.chain[0].y < i32::MAX
}

/// Effect of the input stage: buffer the direction chosen from the key
/// state, falling back to the head's current direction.
pub open spec fn input_step(v: StateView, keys: KeyInput) -> StateView {
    StateView { buffered: Some(chosen_direction(keys, v.direction)), ..v }
}

/// Effect of the direction-update stage: apply the buffered direction
/// only if the head has moved since the last accepted change, the
/// direction differs from the current one, and it is not its opposite;
/// on application, clear `moved`.
pub open spec fn direction_step(v: StateView) -> StateView {
    match v.buffered {
        Some(d) => {
            if v.moved && d != v.direction && d != opposite_of(v.direction) {
                StateView { direction: d, moved: false, ..v }
            } else {
                v
            }
        },
        None => v,
    }
}

/// Effect of one movement tick: the head advances one unit in its
/// direction, every other segment takes the pre-move position of the
/// member ahead of it, the vacated tail cell is recorded, and the
/// game-over signal is raised if the new head is out of bounds or meets
/// any pre-move chain position. Collision does not abort the move.
pub open spec fn movement_step(v: StateView) -> StateView {
    let new_head = step_position(v.chain[0], v.direction);
    StateView {
        moved: true,
        chain: seq![new_head] + v.chain.drop_last(),
        game_over: v.game_over || !within_walls(new_head) || v.chain.contains(new_head),
        last_tail: Some(v.chain.last()),
        ..v
    }
}

/// The foods that remain once every food lying on `head` is eaten,
/// keeping their order.
pub open spec fn surviving(foods: Seq<Food>, head: Position) -> Seq<Food>
    decreases foods.len(),
{
    if foods.len() == 0 {
        foods
    } else {
        let rest = surviving(foods.drop_last(), head);
        if foods.last().position == head {
            rest
        } else {
            rest.push(foods.last())
        }
    }
}

/// Whether some food lies on `head`.
pub open spec fn any_food_at(foods: Seq<Food>, head: Position) -> bool {
    exists|k: int| 0 <= k < foods.len() && foods[k].position == head
}

/// Effect of the eating stage: every food on the head's cell is
/// destroyed, and the growth signal is raised if there was at least one.
pub open spec fn eating_step(v: StateView) -> StateView {
    let head = v.chain[0];
    StateView {
        foods: surviving(v.foods, head),
        growth: v.growth || any_food_at(v.foods, head),
        ..v
    }
}

/// Effect of the growth stage: if the growth signal is present and a
/// tail cell was recorded, append one segment there; the signal is
/// consumed either way.
pub open spec fn growth_step(v: StateView) -> StateView {
    StateView {
        chain: if v.growth && v.last_tail is Some {
            v.chain.push(v.last_tail->0)
        } else {
            v.chain
        },
        growth: false,
        ..v
    }
}

/// Effect of the reset routine alone: a fresh head at the fixed start
/// position with the fixed initial direction, and one fresh tail
/// segment, replacing the whole chain.
pub open spec fn spawn_snake_step(v: StateView) -> StateView {
    StateView { direction: Direction::Up, moved: false, chain: start_chain(), ..v }
}

/// Effect of the game-over stage: if the signal is present, destroy all
/// food and rebuild the starting snake, consuming the signal; otherwise
/// nothing.
pub open spec fn game_over_step(v: StateView) -> StateView {
    if v.game_over {
        StateView { foods: Seq::empty(), game_over: false, ..spawn_snake_step(v) }
    } else {
        v
    }
}

/// Effect of one whole frame, in the fixed stage order: input →
/// direction update → movement (only on a movement tick) → game over →
/// eating → growth.
pub open spec fn frame_spec(v: StateView, keys: KeyInput, movement_tick: bool) -> StateView {
    let v1 = input_step(v, keys);
    let v2 = direction_step(v1);
    let v3 = if movement_tick {
        movement_step(v2)
    } else {
        v2
    };
    let v4 = game_over_step(v3);
    let v5 = eating_step(v4);
    growth_step(v5)
}

/// A free cell: a playable arena cell not occupied by any chain member.
pub open spec fn is_free_cell(v: StateView, p: Position) -> bool {
    in_arena(p) && !v.chain.contains(p)
}

/// The chain invariant of normal play: a head and at least one tail
/// segment.
pub open spec fn wf(v: StateView) -> bool {
    v.chain.len() >= 2
}

impl GameState {
    /// The state at startup: the canonical two-cell snake, nothing else.
    pub fn new() -> (s: GameState)
        ensures
            s@ == start_view(),
    {
        let mut s = GameState {
            head: SnakeHead { direction: Direction::Up, moved: false },
            segments: SnakeSegments(Vec::new()),
            foods: Vec::new(),
            last_tail_position: LastTailPosition(None),
            last_input_direction: LastInputDirection(None),
            growth_signal: false,
            game_over_signal: false,
        };
        s.spawn_snake();
        proof {
            assert(s@ =~= start_view());
        }
        s
    }

    /// The initialization routine, also run whole on every reset:
    /// replace head and chain with the fixed two-cell starting snake.
    pub fn spawn_snake(&mut self)
        ensures
            final(self)@ == spawn_snake_step(old(self)@),
    {
        self.head = SnakeHead { direction: Direction::Up, moved: false };
        let mut chain: Vec<Position> = Vec::new();
        chain.push(Position { x: 3, y: 3 });
        chain.push(Position { x: 3, y: 2 });
        self.segments = SnakeSegments(chain);
    }

    /// Append one new segment object at `position` to the end of the
    /// chain.
    pub fn spawn_segment(&mut self, position: Position)
        ensures
            final(self)@ == (StateView { chain: old(self)@.chain.push(position), ..old(self)@ }),
    {
        self.segments.0.push(position);
    }

    /// The input stage, run every frame: buffer the direction chosen
    /// from the current key state, falling back to the head's current
    /// direction when no movement key is active.
    pub fn snake_movement_input(&mut self, keys: KeyInput)
        ensures
            final(self)@ == input_step(old(self)@, keys),
    {
        let current = self.head.direction;
        let dir = if keys.left_primary {
            Direction::Left
        } else if keys.right_primary {
            Direction::Right
        } else if keys.up_primary {
            Direction::Up
        } else if keys.down_primary {
            Direction::Down
        } else if keys.left_alt {
            Direction::Left
        } else if keys.right_alt {
            Direction::Right
        } else if keys.up_alt {
            Direction::Up
        } else if keys.down_alt {
            Direction::Down
        } else {
            current
        };
        self.last_input_direction = LastInputDirection(Some(dir));
    }

    /// The direction-update stage, run every frame: apply the buffered
    /// direction to the head only if the head has moved since the last
    /// accepted change, the direction differs from the current one, and
    /// it is not the exact opposite; on application, clear `moved`.
    pub fn snake_direction(&mut self)
        ensures
            final(self)@ == direction_step(old(self)@),
    {
        if let Some(dir) = self.last_input_direction.0 {
            if self.head.moved && dir != self.head.direction && dir != self.head.direction.opposite()
            {
                self.head.direction = dir;
                self.head.moved = false;
            }
        }
    }

    /// The eating stage, run every frame after movement: every food
    /// lying on the head's cell is destroyed, and each such match raises
    /// the growth signal.
    pub fn snake_eating(&mut self)
        requires
            old(self)@.chain.len() >= 1,
        ensures
            final(self)@ == eating_step(old(self)@),
    {
        let head_pos = self.segments.0[0];
        let n = self.foods.len();
        let mut kept: Vec<Food> = Vec::new();
        let mut ate = false;
        let mut i: usize = 0;
        while i < n
            invariant
                n == self.foods.len(),
                i <= n,
                *self == *old(self),
                head_pos == old(self)@.chain[0],
                kept@ =~= surviving(self.foods@.take(i as int), head_pos),
                ate == any_food_at(self.foods@.take(i as int), head_pos),
            decreases n - i,
        {
            let f = self.foods[i];
            proof {
                let s1 = self.foods@.take(i as int + 1);
                assert(s1.drop_last() =~= self.foods@.take(i as int));
                assert(s1.last() == f);
                if f.position != head_pos {
                    assert(any_food_at(s1, head_pos) == any_food_at(
                        self.foods@.take(i as int),
                        head_pos,
                    )) by {
                        if any_food_at(s1, head_pos) {
                            let w = choose|w: int|
                                0 <= w < s1.len() && s1[w].position == head_pos;
                            assert(w < i as int);
                            assert(self.foods@.take(i as int)[w] == s1[w]);
                        }
                        if any_food_at(self.foods@.take(i as int), head_pos) {
                            let w = choose|w: int|
                                0 <= w < i as int && self.foods@.take(i as int)[w].position
                                    == head_pos;
                            assert(s1[w].position == head_pos);
                        }
                    }
                } else {
                    assert(s1[i as int].position == head_pos);
                }
            }
            if f.position == head_pos {
                ate = true;
            } else {
                kept.push(f);
            }
            i = i + 1;
        }
        self.foods = kept;
        if ate {
            self.growth_signal = true;
        }
        proof {
            assert(old(self).foods@.take(n as int) =~= old(self).foods@);
            assert(self@ =~= eating_step(old(self)@));
        }
    }

    /// The growth stage, run every frame after eating: if the growth
    /// signal is present and a vacated tail cell was recorded, append
    /// one segment there; the signal is consumed either way.
    pub fn snake_growth(&mut self)
        ensures
            final(self)@ == growth_step(old(self)@),
    {
        if self.growth_signal {
            if let Some(position) = self.last_tail_position.0 {
                self.spawn_segment(position);
            }
            self.growth_signal = false;
        }
    }

    /// The movement tick, run on the movement cadence: snapshot all
    /// pre-move positions, advance the head one unit, flag wall or
    /// self-collision against the snapshot, shift every body segment to
    /// the pre-move position of the member ahead of it, and record the
    /// vacated tail cell. A collision does not abort the move.
    pub fn snake_movement(&mut self)
        requires
            old(self)@.chain.len() >= 1,
            can_step(old(self)@),
        ensures
            final(self)@ == movement_step(old(self)@),
    {
        let n = self.segments.0.len();
        let mut snapshot: Vec<Position> = Vec::new();
        let mut i: usize = 0;
        while i < n
            invariant
                n == self.segments.0.len(),
                i <= n,
                snapshot@ =~= self.segments.0@.take(i as int),
                *self == *old(self),
            decreases n - i,
        {
            let p = self.segments.0[i];
            snapshot.push(p);
            proof {
                assert(snapshot@ =~= self.segments.0@.take(i as int + 1));
            }
            i = i + 1;
        }
        proof {
            assert(snapshot@ =~= old(self).segments.0@);
        }

        let head0 = self.segments.0[0];
        let new_head = match self.head.direction {
            Direction::Up => Position { x: head0.x, y: head0.y + 1 },
            Direction::Down => Position { x: head0.x, y: head0.y - 1 },
            Direction::Left => Position { x: head0.x - 1, y: head0.y },
            Direction::Right => Position { x: head0.x + 1, y: head0.y },
        };
        self.head.moved = true;

        if new_head.x < 0 || new_head.y < 0 || new_head.x > ARENA_WIDTH as i32 || new_head.y
            > ARENA_HEIGHT as i32 {
            self.game_over_signal = true;
        }

        if contains_position(&snapshot, new_head) {
            self.game_over_signal = true;
        }

        let mut new_chain: Vec<Position> = Vec::new();
        new_chain.push(new_head);
        let mut k: usize = 0;
        while k < n - 1
            invariant
                n >= 1,
                snapshot@.len() == n,
                k <= n - 1,
                new_chain@ =~= seq![new_head] + snapshot@.take(k as int),
            decreases n - 1 - k,
        {
            let p = snapshot[k];
            new_chain.push(p);
            k = k + 1;
            proof {
                assert(new_chain@ =~= seq![new_head] + snapshot@.take(k as int));
            }
        }
        let tail = snapshot[n - 1];
        self.last_tail_position = LastTailPosition(Some(tail));
        self.segments = SnakeSegments(new_chain);
        proof {
            assert(snapshot@.take(n as int - 1) =~= old(self)@.chain.drop_last());
            assert(new_head == step_position(old(self)@.chain[0], old(self)@.direction));
            assert(self@ =~= movement_step(old(self)@));
        }
    }

    /// The game-over stage, run every frame: if a collision was flagged
    /// this frame, destroy every food and rebuild the starting snake,
    /// consuming the signal.
    pub fn game_over(&mut self)
        ensures
            final(self)@ == game_over_step(old(self)@),
    {
        if self.game_over_signal {
            self.foods = Vec::new();
            self.spawn_snake();
            self.game_over_signal = false;
        }
    }

    /// The food spawner, run on its own cadence: enumerate every arena
    /// cell, exclude those occupied by a chain member, and pick one of
    /// the rest at random for a new food object. When no cell is free,
    /// nothing happens — silently, not as an error. Whether food already
    /// exists is never checked, so food objects accumulate.
    pub fn spawn_food(&mut self)
        ensures
            final(self)@.direction == old(self)@.direction,
            final(self)@.moved == old(self)@.moved,
            final(self)@.chain == old(self)@.chain,
            final(self)@.last_tail == old(self)@.last_tail,
            final(self)@.buffered == old(self)@.buffered,
            final(self)@.growth == old(self)@.growth,
            final(self)@.game_over == old(self)@.game_over,
            (exists|p: Position| is_free_cell(old(self)@, p)) ==> exists|p: Position|
                is_free_cell(old(self)@, p) && final(self)@.foods == old(self)@.foods.push(
                    Food { position: p },
                ),
            !(exists|p: Position| is_free_cell(old(self)@, p)) ==> final(self)@.foods == old(
                self,
            )@.foods,
    {
        let cells = gen_all_positions();
        let m = cells.len();
        let mut free: Vec<Position> = Vec::new();
        let mut i: usize = 0;
        while i < m
            invariant
                m == cells@.len(),
                i <= m,
                *self == *old(self),
                forall|k: int| 0 <= k < cells@.len() ==> in_arena(#[trigger] cells@[k]),
                forall|p: Position| in_arena(p) ==> cells@.contains(p),
                forall|t: int|
                    0 <= t < free@.len() ==> is_free_cell(old(self)@, #[trigger] free@[t]),
                forall|k: int|
                    0 <= k < i && is_free_cell(old(self)@, #[trigger] cells@[k])
                        ==> free@.contains(cells@[k]),
            decreases m - i,
        {
            let c = cells[i];
            let ghost free0 = free@;
            if !contains_position(&self.segments.0, c) {
                free.push(c);
            }
            proof {
                assert forall|k: int|
                    0 <= k < i as int + 1 && is_free_cell(old(self)@, #[trigger] cells@[k])
                        implies free@.contains(cells@[k]) by {
                    if k == i as int && !old(self)@.chain.contains(c) {
                        assert(free@[free@.len() - 1] == cells@[k]);
                    } else {
                        assert(free0.contains(cells@[k]));
                        let t = choose|t: int|
                            0 <= t < free0.len() && free0[t] == cells@[k];
                        assert(free@[t] == cells@[k]);
                    }
                }
            }
            i = i + 1;
        }

        let choice = choose_cell(&free);
        match choice {
            Some(p) => {
                proof {
                    let t = choose|t: int| 0 <= t < free@.len() && free@[t] == p;
                    assert(is_free_cell(old(self)@, free@[t]));
                }
                self.foods.push(Food { position: p });
                proof {
                    assert(exists|q: Position|
                        is_free_cell(old(self)@, q) && self@.foods == old(self)@.foods.push(
                            Food { position: q },
                        ));
                }
            },
            None => {
                proof {
                    if exists|p: Position| is_free_cell(old(self)@, p) {
                        let p = choose|p: Position| is_free_cell(old(self)@, p);
                        assert(cells@.contains(p));
                        let k = choose|k: int| 0 <= k < cells@.len() && cells@[k] == p;
                        assert(free@.contains(cells@[k]));
                        assert(false);
                    }
                }
            },
        }
    }

    /// One whole frame, in the fixed stage order of the scheduler:
    /// input → direction update → movement (only when `movement_tick`
    /// is set) → game over → eating → growth. The food spawner runs on
    /// its own cadence and is called separately.
    pub fn frame(&mut self, keys: KeyInput, movement_tick: bool)
        requires
            old(self)@.chain.len() >= 1,
            !old(self)@.growth,
            !old(self)@.game_over,
            movement_tick ==> head_strictly_inside(old(self)@),
        ensures
            final(self)@ == frame_spec(old(self)@, keys, movement_tick),
    {
        self.snake_movement_input(keys);
        self.snake_direction();
        if movement_tick {
            self.snake_movement();
        }
        self.game_over();
        self.snake_eating();
        self.snake_growth();
    }
}

/// Growth law: the growth stage appends exactly one segment when the
/// growth signal is present and a vacated tail cell was recorded, and
/// leaves the chain's length unchanged otherwise.
pub proof fn lemma_growth_adds_one(v: StateView)
    ensures
        growth_step(v).chain.len() == if v.growth && v.last_tail is Some {
            v.chain.len() + 1
        } else {
            v.chain.len()
        },
{
}

/// Chain-length law over a whole frame: starting from a well-formed
/// state with no pending signal, a frame keeps the chain well-formed
/// and leaves no signal pending; the length either stays, grows by one
/// (an eating event), or becomes exactly two — and it never decreases
/// except through that full reset.
pub proof fn lemma_frame_chain_length(v: StateView, keys: KeyInput, movement_tick: bool)
    requires
        wf(v),
        !v.growth,
        !v.game_over,
    ensures
        wf(frame_spec(v, keys, movement_tick)),
        !frame_spec(v, keys, movement_tick).growth,
        !frame_spec(v, keys, movement_tick).game_over,
        frame_spec(v, keys, movement_tick).chain.len() == v.chain.len() || frame_spec(
            v,
            keys,
            movement_tick,
        ).chain.len() == v.chain.len() + 1 || frame_spec(v, keys, movement_tick).chain.len() == 2,
        frame_spec(v, keys, movement_tick).chain.len() < v.chain.len() ==> frame_spec(
            v,
            keys,
            movement_tick,
        ).chain.len() == 2,
{
}

/// Reversal law: a requested direction equal to the opposite of the
/// current one is rejected — the direction update leaves the state
/// untouched.
pub proof fn lemma_reversal_rejected(v: StateView)
    requires
        v.buffered == Some(opposite_of(v.direction)),
    ensures
        direction_step(v) == v,
{
}

/// Follow-the-leader law: a movement tick preserves the chain's length,
/// and every non-head segment's new position is exactly the pre-tick
/// position of the member one index ahead of it.
pub proof fn lemma_follow_the_leader(v: StateView)
    requires
        v.chain.len() >= 1,
    ensures
        movement_step(v).chain.len() == v.chain.len(),
        forall|i: int| 1 <= i < v.chain.len() ==> movement_step(v).chain[i] == v.chain[i - 1],
{
}

/// Bounds law: whenever a movement tick carries the head outside the
/// accepted bounds, the game-over signal is raised on that same tick.
pub proof fn lemma_wall_breach_flagged(v: StateView)
    requires
        v.chain.len() >= 1,
    ensures
        movement_step(v).chain[0] == step_position(v.chain[0], v.direction),
        !within_walls(movement_step(v).chain[0]) ==> movement_step(v).game_over,
{
}

} // verus!

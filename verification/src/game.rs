//! The game state and its tick-advance state machine.
//!
//! A tick moves the head one cell in the current direction (wrapping at
//! the edges), grows the snake when the head reaches the apple, drops the
//! tail otherwise, and ends the game when the head lands on a surviving
//! segment. A terminated game absorbs every further tick unchanged.

use crate::geometry::{bounds_valid, in_bounds, wrapped, Bounds, Position};
use crate::geometry::move_wrap;
use crate::input::Signal;
use crate::placement::random_position;
use std::collections::VecDeque;
use vstd::prelude::*;

verus! {

/// The direction of travel. `Idle` is the pre-game value: the snake
/// stands still until the first directional keypress.
#[derive(Clone, Copy, PartialEq, Eq, Structural, Debug)]
pub enum Direction {
    Idle,
    Right,
    Left,
    Up,
    Down,
}

/// Whether the game still accepts ticks. `Terminated` is absorbing.
#[derive(Clone, Copy, PartialEq, Eq, Structural, Debug)]
pub enum Status {
    Running,
    Terminated,
}

/// The cell offset one tick adds to the head: rows grow downward, so
/// `Up` decreases `y` and `Down` increases it.
pub open spec fn delta_of(d: Direction) -> (int, int) {
    match d {
        Direction::Idle => (0, 0),
        Direction::Right => (1, 0),
        Direction::Left => (-1, 0),
        Direction::Up => (0, -1),
        Direction::Down => (0, 1),
    }
}

/// The executable form of `delta_of`.
pub fn direction_delta(d: Direction) -> (r: (i32, i32))
    ensures
        r.0 as int == delta_of(d).0,
        r.1 as int == delta_of(d).1,
{
    match d {
        Direction::Idle => (0, 0),
        Direction::Right => (1, 0),
        Direction::Left => (-1, 0),
        Direction::Up => (0, -1),
        Direction::Down => (0, 1),
    }
}

/// The mathematical model of a game: the body as a sequence of cells,
/// front first, and the plain values beside it.
#[verifier::ext_equal]
pub struct GameView {
    pub bounds: Bounds,
    pub body: Seq<Position>,
    pub apple: Position,
    pub direction: Direction,
    pub score: u32,
    pub status: Status,
}

impl GameView {
    /// Well-formedness: positive bounds, at least one segment, and every
    /// cell of interest inside the grid.
    pub open spec fn wf(self) -> bool {
        &&& bounds_valid(self.bounds)
        &&& self.body.len() >= 1
        &&& (forall|i: int|
            0 <= i < self.body.len() ==> in_bounds(#[trigger] self.body[i], self.bounds))
        &&& in_bounds(self.apple, self.bounds)
    }

    pub open spec fn head(self) -> Position {
        self.body[0]
    }

    /// Where the head lands this tick.
    pub open spec fn next_head(self) -> Position {
        wrapped(self.head(), self.bounds, delta_of(self.direction).0, delta_of(self.direction).1)
    }

    /// The tick reaches the apple: the snake grows.
    pub open spec fn grows(self) -> bool {
        self.next_head() == self.apple
    }

    /// The segments that survive the tick before the new head is added:
    /// on growth the whole body, otherwise the body without its tail.
    pub open spec fn retained(self) -> Seq<Position> {
        if self.grows() {
            self.body
        } else {
            self.body.drop_last()
        }
    }

    /// The new head lands on a surviving segment: self-collision.
    pub open spec fn collides(self) -> bool {
        self.retained().contains(self.next_head())
    }

    /// One tick, given the cell a relocated apple would land on. A game
    /// that is not running is returned unchanged. Otherwise the head
    /// advances; on growth the apple moves to `fresh_apple` and the score
    /// rises by one; on self-collision the game terminates with the new
    /// head left unplaced; otherwise the new head joins the front.
    pub open spec fn stepped(self, fresh_apple: Position) -> GameView {
        if self.status != Status::Running {
            self
        } else {
            GameView {
                bounds: self.bounds,
                direction: self.direction,
                apple: if self.grows() {
                    fresh_apple
                } else {
                    self.apple
                },
                score: if self.grows() {
                    (self.score + 1) as u32
                } else {
                    self.score
                },
                status: if self.collides() {
                    Status::Terminated
                } else {
                    Status::Running
                },
                body: if self.collides() {
                    self.retained()
                } else {
                    seq![self.next_head()] + self.retained()
                },
            }
        }
    }

    /// What a signal does: steering replaces the direction, quitting
    /// terminates the game; nothing else changes.
    pub open spec fn signalled(self, signal: Signal) -> GameView {
        match signal {
            Signal::SetDirection(d) => GameView { direction: d, ..self },
            Signal::Quit => GameView { status: Status::Terminated, ..self },
        }
    }
}

/// Law: a terminated game absorbs ticks; stepping it changes nothing.
pub proof fn lemma_terminated_absorbs(v: GameView, fresh_apple: Position)
    requires
        v.status == Status::Terminated,
    ensures
        v.stepped(fresh_apple) == v,
{
}

/// Law: a collision-free tick onto the apple grows the body by one
/// segment and the score by one point; a collision-free tick onto empty
/// space keeps both unchanged.
pub proof fn lemma_growth_and_score(v: GameView, fresh_apple: Position)
    requires
        v.status == Status::Running,
        v.body.len() >= 1,
        v.score < u32::MAX,
        !v.collides(),
    ensures
        v.grows() ==> v.stepped(fresh_apple).body.len() == v.body.len() + 1,
        v.grows() ==> v.stepped(fresh_apple).score == v.score + 1,
        !v.grows() ==> v.stepped(fresh_apple).body.len() == v.body.len(),
        !v.grows() ==> v.stepped(fresh_apple).score == v.score,
{
}

/// Law: a tick whose new head lands on a surviving segment terminates
/// the game.
pub proof fn lemma_self_collision_terminates(v: GameView, fresh_apple: Position)
    requires
        v.status == Status::Running,
        v.collides(),
    ensures
        v.stepped(fresh_apple).status == Status::Terminated,
{
}

/// No two segments of the body share a cell.
pub open spec fn distinct_body(body: Seq<Position>) -> bool {
    forall|i: int, j: int| 0 <= i < j < body.len() ==> body[i] != body[j]
}

/// Law: while the game runs, the body stays duplicate-free: a tick from
/// a duplicate-free body that leaves the game running yields a
/// duplicate-free body. (The one tick that would duplicate a cell is the
/// one that terminates the game instead.)
pub proof fn lemma_step_keeps_body_distinct(v: GameView, fresh_apple: Position)
    requires
        v.body.len() >= 1,
        distinct_body(v.body),
        v.stepped(fresh_apple).status == Status::Running,
    ensures
        distinct_body(v.stepped(fresh_apple).body),
{
    let s2 = v.stepped(fresh_apple);
    if v.status == Status::Running {
        let h = v.next_head();
        let kept = v.retained();
        assert(!v.collides());
        assert forall|i: int, j: int| 0 <= i < j < s2.body.len() implies s2.body[i] != s2.body[j] by {
            assert(kept.len() == s2.body.len() - 1);
            assert(forall|x: int| 0 <= x < kept.len() ==> #[trigger] kept[x] == v.body[x]);
            if i == 0 {
                assert(s2.body[i] == h);
                assert(s2.body[j] == kept[j - 1]);
                if kept[j - 1] == h {
                    assert(kept.contains(h));
                    assert(false);
                }
            } else {
                assert(s2.body[i] == kept[i - 1]);
                assert(s2.body[j] == kept[j - 1]);
                assert(v.body[i - 1] != v.body[j - 1]);
            }
        }
    }
}

/// The live game: the grid, the snake, the apple, the direction of
/// travel, the score, and whether the game still runs.
#[derive(Debug)]
pub struct GameState {
    pub bounds: Bounds,
    /// Front is the head, back the oldest segment.
    pub body: VecDeque<Position>,
    pub apple: Position,
    pub direction: Direction,
    pub score: u32,
    pub status: Status,
}

impl View for GameState {
    type V = GameView;

    open spec fn view(&self) -> GameView {
        GameView {
            bounds: self.bounds,
            body: self.body@,
            apple: self.apple,
            direction: self.direction,
            score: self.score,
            status: self.status,
        }
    }
}

impl GameState {
    /// A fresh game: the apple and the single starting segment drawn at
    /// random, no movement yet, score zero.
    pub fn new(bounds: Bounds) -> (s: GameState)
        requires
            bounds_valid(bounds),
        ensures
            s@.wf(),
            s@.bounds == bounds,
            s@.body.len() == 1,
            s@.direction == Direction::Idle,
            s@.score == 0,
            s@.status == Status::Running,
    {
        let apple: Position = random_position(&bounds);
        let start: Position = random_position(&bounds);
        let mut body: VecDeque<Position> = VecDeque::new();
        body.push_front(start);
        proof {
            assert(body@ =~= seq![start]);
        }
        GameState {
            bounds,
            body,
            apple,
            direction: Direction::Idle,
            score: 0,
            status: Status::Running,
        }
    }

    /// One tick, deterministic: the caller supplies the cell a relocated
    /// apple lands on, and the result is exactly `stepped`.
    pub fn advance_with_apple(&mut self, fresh_apple: Position)
        requires
            old(self)@.wf(),
            in_bounds(fresh_apple, old(self)@.bounds),
            old(self).score < u32::MAX,
        ensures
            final(self)@ == old(self)@.stepped(fresh_apple),
            final(self)@.wf(),
    {
        let ghost v0 = self@;
        if self.status == Status::Terminated {
            return;
        }
        let delta: (i32, i32) = direction_delta(self.direction);
        let mut head: Position = self.body[0];
        move_wrap(&mut head, &self.bounds, delta);
        assert(head == v0.next_head());
        let grows: bool = head == self.apple;
        if grows {
            self.apple = fresh_apple;
            self.score = self.score + 1;
        } else {
            let _dropped: Option<Position> = self.body.pop_back();
        }
        let ghost kept = self.body@;
        assert(kept =~= v0.retained());
        let n: usize = self.body.len();
        let mut i: usize = 0;
        let mut collided: bool = false;
        while i < n
            invariant
                i <= n,
                n == self.body@.len(),
                self.body@ == kept,
                collided <==> exists|j: int| 0 <= j < i && #[trigger] kept[j] == head,
            decreases n - i,
        {
            if self.body[i] == head {
                collided = true;
            }
            i = i + 1;
        }
        assert(collided == v0.collides());
        if collided {
            self.status = Status::Terminated;
        } else {
            self.body.push_front(head);
        }
        proof {
            assert(self@ =~= v0.stepped(fresh_apple));
            assert forall|j: int| 0 <= j < self@.body.len() implies in_bounds(
                #[trigger] self@.body[j],
                self@.bounds,
            ) by {
                if collided {
                    assert(self@.body[j] == v0.body[j]);
                } else {
                    if j > 0 {
                        assert(self@.body[j] == v0.body[j - 1]);
                    }
                }
            }
        }
    }

    /// One tick of the live game: when the head reaches the apple, the
    /// apple's new cell is drawn at random, so the outcome is `stepped`
    /// for some in-bounds relocation cell.
    pub fn advance(&mut self)
        requires
            old(self)@.wf(),
            old(self).score < u32::MAX,
        ensures
            final(self)@.wf(),
            exists|fa: Position|
                in_bounds(fa, old(self)@.bounds) && final(self)@ == #[trigger] old(
                    self,
                )@.stepped(fa),
            old(self).status == Status::Terminated ==> *final(self) == *old(self),
    {
        if self.status == Status::Terminated {
            proof {
                assert(in_bounds(old(self)@.apple, old(self)@.bounds) && self@ == old(
                    self,
                )@.stepped(old(self)@.apple));
            }
            return;
        }
        let delta: (i32, i32) = direction_delta(self.direction);
        let mut cand: Position = self.body[0];
        move_wrap(&mut cand, &self.bounds, delta);
        let fresh: Position = if cand == self.apple {
            random_position(&self.bounds)
        } else {
            self.apple
        };
        self.advance_with_apple(fresh);
        proof {
            assert(in_bounds(fresh, old(self)@.bounds) && self@ == old(self)@.stepped(fresh));
        }
    }

    /// Acts on one input signal: steering or quitting.
    pub fn apply_signal(&mut self, signal: Signal)
        ensures
            final(self)@ == old(self)@.signalled(signal),
            old(self)@.wf() ==> final(self)@.wf(),
    {
        match signal {
            Signal::SetDirection(d) => {
                self.direction = d;
            },
            Signal::Quit => {
                self.status = Status::Terminated;
            },
        }
        proof {
            assert(self@ =~= old(self)@.signalled(signal));
        }
    }
}

} // verus!

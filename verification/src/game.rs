//! The deterministic simulation: ball physics, paddle control and scoring.
//!
//! One `advance` per timer tick moves the ball, bounces it off the top and
//! bottom walls, deflects it off a paddle face, and scores and re-centres it
//! when it reaches a goal column. Those four steps are applied in this fixed
//! order to the same new position, so a ball that lands in a corner both
//! bounces vertically and scores in the same tick.

use vstd::prelude::*;

use crate::input::{InputEvent, NamedKey};

verus! {

/// The last playfield row; row 0 and this row are the bouncing walls.
pub const BOTTOM_ROW: usize = 24;
/// The left goal column; a ball that reaches it scores for the right player.
pub const LEFT_GOAL_COL: usize = 0;
/// The right goal column; a ball that reaches it scores for the left player.
pub const RIGHT_GOAL_COL: usize = 79;
/// The column on the face of the left paddle, where the ball can deflect.
pub const LEFT_PADDLE_COL: usize = 1;
/// The column on the face of the right paddle, where the ball can deflect.
pub const RIGHT_PADDLE_COL: usize = 78;
/// The row the ball is re-centred to after a point.
pub const CENTER_ROW: usize = 12;
/// The column the ball is re-centred to after a point.
pub const CENTER_COL: usize = 40;
/// The height of both paddles, in rows.
pub const PADDLE_HEIGHT: usize = 4;
/// The row both paddles start at.
pub const INITIAL_PADDLE_ROW: usize = 10;

/// The whole game state: ball position and velocity, the two paddles, and
/// the two scores. Mutated exclusively by the single consumer of the event
/// latch; it needs no synchronization of its own.
#[derive(Clone, Copy, Debug, PartialEq, Eq)]
pub struct PongGame {
    pub ball_row: usize,
    pub ball_col: usize,
    /// Horizontal velocity, in {-1, 0, 1}; positive moves right.
    pub ball_dx: isize,
    /// Vertical velocity, in {-1, 0, 1}; positive moves down.
    pub ball_dy: isize,
    /// Top row of the left paddle.
    pub paddle_left_row: usize,
    /// Top row of the right paddle.
    pub paddle_right_row: usize,
    pub paddle_height: usize,
    pub score_left: usize,
    pub score_right: usize,
}

/// Well-formedness of a game state: the ball sits between the goal-adjacent
/// paddle columns and inside the rows of the playfield, velocities are unit
/// steps at most, both paddles fit above the bottom wall, and a ball resting
/// on a wall is not about to leave the field through it.
pub open spec fn wf(g: PongGame) -> bool {
    &&& g.paddle_height == PADDLE_HEIGHT
    &&& g.paddle_left_row + g.paddle_height <= BOTTOM_ROW
    &&& g.paddle_right_row + g.paddle_height <= BOTTOM_ROW
    &&& LEFT_PADDLE_COL <= g.ball_col <= RIGHT_PADDLE_COL
    &&& g.ball_row <= BOTTOM_ROW
    &&& -1 <= g.ball_dx <= 1
    &&& -1 <= g.ball_dy <= 1
    &&& (g.ball_row == 0 ==> g.ball_dy >= 0)
    &&& (g.ball_row == BOTTOM_ROW ==> g.ball_dy <= 0)
}

/// The row the ball moves to this tick, before any wall or goal handling.
pub open spec fn moved_row(g: PongGame) -> int {
    g.ball_row + g.ball_dy
}

/// The column the ball moves to this tick, before any deflection or goal
/// handling.
pub open spec fn moved_col(g: PongGame) -> int {
    g.ball_col + g.ball_dx
}

/// Whether the moved ball sits on the top or bottom wall this tick.
pub open spec fn wall_bounce(g: PongGame) -> bool {
    moved_row(g) == 0 || moved_row(g) == BOTTOM_ROW
}

/// Vertical velocity after the wall check: negated on a wall row.
pub open spec fn dy_after_bounce(g: PongGame) -> int {
    if wall_bounce(g) {
        0 - g.ball_dy
    } else {
        g.ball_dy as int
    }
}

/// Whether the moved ball sits on a paddle face within the paddle's rows.
pub open spec fn paddle_deflect(g: PongGame) -> bool {
    ||| (moved_col(g) == LEFT_PADDLE_COL
        && g.paddle_left_row <= moved_row(g) < g.paddle_left_row + g.paddle_height)
    ||| (moved_col(g) == RIGHT_PADDLE_COL
        && g.paddle_right_row <= moved_row(g) < g.paddle_right_row + g.paddle_height)
}

/// Horizontal velocity after the paddle check: negated on a hit.
pub open spec fn dx_after_deflect(g: PongGame) -> int {
    if paddle_deflect(g) {
        0 - g.ball_dx
    } else {
        g.ball_dx as int
    }
}

/// Whether the moved ball reaches a goal column this tick, ending the point.
pub open spec fn point_scored(g: PongGame) -> bool {
    moved_col(g) == LEFT_GOAL_COL || moved_col(g) == RIGHT_GOAL_COL
}

/// The state one `advance` later: the ball moves one step, bounces, deflects
/// and scores in that fixed order; on a point it is re-centred with its
/// horizontal velocity reversed and a zero vertical velocity forced to +1.
/// The paddles never move during an advance.
pub open spec fn advance_spec(g: PongGame) -> PongGame {
    PongGame {
        ball_row: if point_scored(g) {
            CENTER_ROW
        } else {
            moved_row(g) as usize
        },
        ball_col: if point_scored(g) {
            CENTER_COL
        } else {
            moved_col(g) as usize
        },
        ball_dx: (if point_scored(g) {
            0 - dx_after_deflect(g)
        } else {
            dx_after_deflect(g)
        }) as isize,
        ball_dy: (if point_scored(g) && dy_after_bounce(g) == 0 {
            1int
        } else {
            dy_after_bounce(g)
        }) as isize,
        score_left: if moved_col(g) == RIGHT_GOAL_COL {
            (g.score_left + 1) as usize
        } else {
            g.score_left
        },
        score_right: if moved_col(g) == LEFT_GOAL_COL {
            (g.score_right + 1) as usize
        } else {
            g.score_right
        },
        ..g
    }
}

/// The state after one keyboard event: arrow up and arrow down move the right
/// paddle, 'w' and 's' move the left one, each move clamped so the paddle
/// never leaves the rows of the playfield; every other event is a no-op.
pub open spec fn key_spec(g: PongGame, k: InputEvent) -> PongGame {
    if k == InputEvent::Named(NamedKey::Up) && g.paddle_right_row > 0 {
        PongGame { paddle_right_row: (g.paddle_right_row - 1) as usize, ..g }
    } else if k == InputEvent::Named(NamedKey::Down)
        && g.paddle_right_row + g.paddle_height < BOTTOM_ROW {
        PongGame { paddle_right_row: (g.paddle_right_row + 1) as usize, ..g }
    } else if k == InputEvent::Character('w') && g.paddle_left_row > 0 {
        PongGame { paddle_left_row: (g.paddle_left_row - 1) as usize, ..g }
    } else if k == InputEvent::Character('s')
        && g.paddle_left_row + g.paddle_height < BOTTOM_ROW {
        PongGame { paddle_left_row: (g.paddle_left_row + 1) as usize, ..g }
    } else {
        g
    }
}

/// An advance from a well-formed state with representable scores yields a
/// well-formed state again: the ball never leaves the playfield, the paddles
/// stay in place, and the scores never decrease. Since the initial state is
/// well formed and key events preserve well-formedness too, this holds after
/// every advance the game ever makes.
pub proof fn lemma_advance_preserves_wf(g: PongGame)
    requires
        wf(g),
        g.score_left < usize::MAX,
        g.score_right < usize::MAX,
    ensures
        wf(advance_spec(g)),
        advance_spec(g).score_left >= g.score_left,
        advance_spec(g).score_right >= g.score_right,
{
}

/// A keyboard event never harms well-formedness: the paddles stay clamped to
/// the playfield and nothing else changes.
pub proof fn lemma_key_preserves_wf(g: PongGame, k: InputEvent)
    requires
        wf(g),
    ensures
        wf(key_spec(g, k)),
{
}

/// Wall bounce: a ball arriving at the top wall with upward velocity ends the
/// tick sitting on the wall with its vertical velocity flipped to +1, and the
/// following advance, when it does not end the point, moves the ball one row
/// back down off the wall.
pub proof fn lemma_wall_bounce(g: PongGame)
    requires
        wf(g),
        g.ball_row == 1,
        g.ball_dy == -1,
        !point_scored(g),
    ensures
        advance_spec(g).ball_row == 0,
        advance_spec(g).ball_dy == 1,
        !point_scored(advance_spec(g)) ==> advance_spec(advance_spec(g)).ball_row == 1,
{
}

/// Scoring and reset: a ball on the right paddle column moving right crosses
/// the right goal this tick. The left score rises by exactly one, the right
/// score is untouched, the ball returns to the centre of the field, and its
/// horizontal velocity flips sign relative to the moment it left the field.
pub proof fn lemma_score_and_reset(g: PongGame)
    requires
        wf(g),
        g.score_left < usize::MAX,
        g.ball_col == RIGHT_PADDLE_COL,
        g.ball_dx == 1,
    ensures
        advance_spec(g).score_left == g.score_left + 1,
        advance_spec(g).score_right == g.score_right,
        advance_spec(g).ball_row == CENTER_ROW,
        advance_spec(g).ball_col == CENTER_COL,
        advance_spec(g).ball_dx == -1,
{
}

/// Paddle clamp: a "move up" for a right paddle already resting on row 0
/// leaves the paddle exactly where it was.
pub proof fn lemma_paddle_clamp(g: PongGame)
    requires
        g.paddle_right_row == 0,
    ensures
        key_spec(g, InputEvent::Named(NamedKey::Up)).paddle_right_row == 0,
{
}

impl PongGame {
    /// The fixed initial state: ball at the centre moving down-right, both
    /// paddles at the initial row, no points scored.
    pub fn new() -> (r: PongGame)
        ensures
            r.ball_row == CENTER_ROW,
            r.ball_col == CENTER_COL,
            r.ball_dx == 1,
            r.ball_dy == 1,
            r.paddle_left_row == INITIAL_PADDLE_ROW,
            r.paddle_right_row == INITIAL_PADDLE_ROW,
            r.paddle_height == PADDLE_HEIGHT,
            r.score_left == 0,
            r.score_right == 0,
            wf(r),
    {
        PongGame {
            ball_row: CENTER_ROW,
            ball_col: CENTER_COL,
            ball_dx: 1,
            ball_dy: 1,
            paddle_left_row: INITIAL_PADDLE_ROW,
            paddle_right_row: INITIAL_PADDLE_ROW,
            paddle_height: PADDLE_HEIGHT,
            score_left: 0,
            score_right: 0,
        }
    }

    /// Reports whether the state is well formed, so a host driving the loop
    /// can check the simulation's precondition before each step.
    pub fn is_well_formed(&self) -> (r: bool)
        ensures
            r == wf(*self),
    {
        self.paddle_height == PADDLE_HEIGHT
            && self.paddle_left_row <= BOTTOM_ROW - PADDLE_HEIGHT
            && self.paddle_right_row <= BOTTOM_ROW - PADDLE_HEIGHT
            && LEFT_PADDLE_COL <= self.ball_col
            && self.ball_col <= RIGHT_PADDLE_COL
            && self.ball_row <= BOTTOM_ROW
            && -1 <= self.ball_dx
            && self.ball_dx <= 1
            && -1 <= self.ball_dy
            && self.ball_dy <= 1
            && (self.ball_row != 0 || self.ball_dy >= 0)
            && (self.ball_row != BOTTOM_ROW || self.ball_dy <= 0)
    }

    /// Re-centres the ball after a point, reversing the horizontal velocity
    /// it left the field with and forcing a zero vertical velocity to +1 so
    /// the ball can never travel permanently level.
    pub fn reset_ball(&mut self)
        requires
            -1 <= old(self).ball_dx <= 1,
            -1 <= old(self).ball_dy <= 1,
        ensures
            final(self).ball_row == CENTER_ROW,
            final(self).ball_col == CENTER_COL,
            final(self).ball_dx == 0 - old(self).ball_dx,
            final(self).ball_dy == if old(self).ball_dy == 0 {
                1int
            } else {
                old(self).ball_dy as int
            },
            final(self).paddle_left_row == old(self).paddle_left_row,
            final(self).paddle_right_row == old(self).paddle_right_row,
            final(self).paddle_height == old(self).paddle_height,
            final(self).score_left == old(self).score_left,
            final(self).score_right == old(self).score_right,
    {
        self.ball_row = CENTER_ROW;
        self.ball_col = CENTER_COL;
        self.ball_dx = -self.ball_dx;
        self.ball_dy = if self.ball_dy == 0 { 1 } else { self.ball_dy };
    }

    /// One simulation step, exactly `advance_spec` of the old state. The
    /// score bounds only keep the one increment a point makes representable.
    pub fn update_ball(&mut self)
        requires
            wf(*old(self)),
            old(self).score_left < usize::MAX,
            old(self).score_right < usize::MAX,
        ensures
            *final(self) == advance_spec(*old(self)),
            wf(*final(self)),
    {
        let nr: isize = self.ball_row as isize + self.ball_dy;
        let nc: isize = self.ball_col as isize + self.ball_dx;
        self.ball_row = nr as usize;
        self.ball_col = nc as usize;

        if self.ball_row == 0 || self.ball_row == BOTTOM_ROW {
            self.ball_dy = -self.ball_dy;
        }

        if self.ball_col == LEFT_PADDLE_COL
            && self.ball_row >= self.paddle_left_row
            && self.ball_row < self.paddle_left_row + self.paddle_height {
            self.ball_dx = -self.ball_dx;
        }
        if self.ball_col == RIGHT_PADDLE_COL
            && self.ball_row >= self.paddle_right_row
            && self.ball_row < self.paddle_right_row + self.paddle_height {
            self.ball_dx = -self.ball_dx;
        }

        if self.ball_col == LEFT_GOAL_COL {
            self.score_right = self.score_right + 1;
            self.reset_ball();
        } else if self.ball_col == RIGHT_GOAL_COL {
            self.score_left = self.score_left + 1;
            self.reset_ball();
        }
    }

    /// Applies one keyboard event to the paddles, exactly `key_spec` of the
    /// old state: out-of-range moves are silently clamped, unrecognized
    /// events are no-ops, and the ball and scores are never touched.
    pub fn key(&mut self, k: InputEvent)
        requires
            wf(*old(self)),
        ensures
            *final(self) == key_spec(*old(self), k),
            wf(*final(self)),
    {
        match k {
            InputEvent::Named(NamedKey::Up) => {
                if self.paddle_right_row > 0 {
                    self.paddle_right_row = self.paddle_right_row - 1;
                }
            }
            InputEvent::Named(NamedKey::Down) => {
                if self.paddle_right_row + self.paddle_height < BOTTOM_ROW {
                    self.paddle_right_row = self.paddle_right_row + 1;
                }
            }
            InputEvent::Character(c) => {
                if c == 'w' && self.paddle_left_row > 0 {
                    self.paddle_left_row = self.paddle_left_row - 1;
                } else if c == 's' && self.paddle_left_row + self.paddle_height < BOTTOM_ROW {
                    self.paddle_left_row = self.paddle_left_row + 1;
                }
            }
            InputEvent::Named(NamedKey::Other) => {}
        }
    }
}

} // verus!

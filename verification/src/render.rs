//! Projection of the game state onto a fixed character grid.
//!
//! Every tick redraws the whole display: clear it, draw the two paddle bars
//! in the outermost columns, the ball glyph, and the two scores with a
//! separator on the reserved top row. The projection only produces a list of
//! draw commands; putting glyphs on a real display is the host's concern.

use vstd::prelude::*;

use crate::game::{advance_spec, wf, PongGame};

verus! {

/// The column the left paddle is drawn in.
pub const LEFT_BAR_COL: usize = 0;
/// The column the right paddle is drawn in.
pub const RIGHT_BAR_COL: usize = 79;
/// The reserved row the scores are drawn on.
pub const SCORE_ROW: usize = 0;
/// The column of the left player's score numeral.
pub const LEFT_SCORE_COL: usize = 30;
/// The column of the separator between the scores.
pub const SCORE_SEPARATOR_COL: usize = 32;
/// The column of the right player's score numeral.
pub const RIGHT_SCORE_COL: usize = 34;
/// The glyph a paddle is drawn with.
pub const PADDLE_GLYPH: char = '|';
/// The glyph the ball is drawn with.
pub const BALL_GLYPH: char = 'O';
/// The glyph drawn between the two scores.
pub const SCORE_SEPARATOR: char = ':';

/// One command against the character grid, addressed by (column, row) with
/// origin top-left.
#[derive(Clone, Copy, Debug, PartialEq, Eq)]
pub enum DrawCmd {
    /// Clear the whole display.
    Clear,
    /// Put a single glyph at (col, row).
    Glyph { ch: char, col: usize, row: usize },
    /// Put a decimal numeral at (col, row).
    Number { value: usize, col: usize, row: usize },
}

/// A vertical bar of `h` paddle glyphs in column `col`, starting at row `top`.
pub open spec fn paddle_bar(top: usize, col: usize, h: usize) -> Seq<DrawCmd> {
    Seq::new(
        h as nat,
        |i: int| DrawCmd::Glyph { ch: PADDLE_GLYPH, col: col, row: (top + i) as usize },
    )
}

/// The full redraw of a state, in order: clear, the left paddle bar, the
/// right paddle bar, the ball, and the two scores around their separator.
pub open spec fn render_spec(g: PongGame) -> Seq<DrawCmd> {
    seq![DrawCmd::Clear]
        + paddle_bar(g.paddle_left_row, LEFT_BAR_COL, g.paddle_height)
        + paddle_bar(g.paddle_right_row, RIGHT_BAR_COL, g.paddle_height)
        + seq![
            DrawCmd::Glyph { ch: BALL_GLYPH, col: g.ball_col, row: g.ball_row },
            DrawCmd::Number { value: g.score_left, col: LEFT_SCORE_COL, row: SCORE_ROW },
            DrawCmd::Glyph { ch: SCORE_SEPARATOR, col: SCORE_SEPARATOR_COL, row: SCORE_ROW },
            DrawCmd::Number { value: g.score_right, col: RIGHT_SCORE_COL, row: SCORE_ROW },
        ]
}

impl PongGame {
    /// Projects the state into the exact command sequence of `render_spec`.
    pub fn render(&self) -> (r: Vec<DrawCmd>)
        requires
            wf(*self),
        ensures
            r@ == render_spec(*self),
    {
        let mut cmds: Vec<DrawCmd> = Vec::new();
        cmds.push(DrawCmd::Clear);

        let mut i: usize = 0;
        while i < self.paddle_height
            invariant
                i <= self.paddle_height,
                wf(*self),
                cmds@ == seq![DrawCmd::Clear]
                    + paddle_bar(self.paddle_left_row, LEFT_BAR_COL, self.paddle_height)
                        .take(i as int),
            decreases self.paddle_height - i,
        {
            cmds.push(DrawCmd::Glyph {
                ch: PADDLE_GLYPH,
                col: LEFT_BAR_COL,
                row: self.paddle_left_row + i,
            });
            i = i + 1;
            proof {
                assert(cmds@ =~= seq![DrawCmd::Clear]
                    + paddle_bar(self.paddle_left_row, LEFT_BAR_COL, self.paddle_height)
                        .take(i as int));
            }
        }

        let mut j: usize = 0;
        while j < self.paddle_height
            invariant
                j <= self.paddle_height,
                wf(*self),
                cmds@ == seq![DrawCmd::Clear]
                    + paddle_bar(self.paddle_left_row, LEFT_BAR_COL, self.paddle_height)
                    + paddle_bar(self.paddle_right_row, RIGHT_BAR_COL, self.paddle_height)
                        .take(j as int),
            decreases self.paddle_height - j,
        {
            cmds.push(DrawCmd::Glyph {
                ch: PADDLE_GLYPH,
                col: RIGHT_BAR_COL,
                row: self.paddle_right_row + j,
            });
            j = j + 1;
            proof {
                assert(cmds@ =~= seq![DrawCmd::Clear]
                    + paddle_bar(self.paddle_left_row, LEFT_BAR_COL, self.paddle_height)
                    + paddle_bar(self.paddle_right_row, RIGHT_BAR_COL, self.paddle_height)
                        .take(j as int));
            }
        }

        cmds.push(DrawCmd::Glyph { ch: BALL_GLYPH, col: self.ball_col, row: self.ball_row });
        cmds.push(DrawCmd::Number {
            value: self.score_left,
            col: LEFT_SCORE_COL,
            row: SCORE_ROW,
        });
        cmds.push(DrawCmd::Glyph { ch: SCORE_SEPARATOR, col: SCORE_SEPARATOR_COL, row: SCORE_ROW });
        cmds.push(DrawCmd::Number {
            value: self.score_right,
            col: RIGHT_SCORE_COL,
            row: SCORE_ROW,
        });

        proof {
            assert(cmds@ =~= render_spec(*self));
        }
        cmds
    }

    /// One timer tick: advance the simulation one step, then redraw, handing
    /// back the commands for the full redraw of the new state.
    pub fn tick(&mut self) -> (r: Vec<DrawCmd>)
        requires
            wf(*old(self)),
            old(self).score_left < usize::MAX,
            old(self).score_right < usize::MAX,
        ensures
            *final(self) == advance_spec(*old(self)),
            wf(*final(self)),
            r@ == render_spec(*final(self)),
    {
        self.update_ball();
        self.render()
    }
}

} // verus!

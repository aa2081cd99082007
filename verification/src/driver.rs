//! The cooperative polling driver.
//!
//! The host registers two interrupt handlers, which do nothing but publish
//! into the event latch, and an endless loop that calls `cpu_loop` once per
//! iteration and performs the draw commands it hands back. No iteration
//! blocks, sleeps, or waits on the interrupt contexts.

use vstd::prelude::*;

use crate::game::{advance_spec, key_spec, wf, PongGame};
use crate::input::InputEvent;
use crate::latch::{published_key, published_tick, EventLatch};
use crate::render::{render_spec, DrawCmd};

verus! {

/// The state one polling iteration leaves the game in, given what the latch
/// held: a pending key moves its paddle first, then a pending tick advances
/// the simulation, so the latest input takes effect before the frame it is
/// first rendered in.
pub open spec fn loop_step(g: PongGame, ticked: bool, key: Option<InputEvent>) -> PongGame {
    let keyed = match key {
        Option::Some(k) => key_spec(g, k),
        Option::None => g,
    };
    if ticked {
        advance_spec(keyed)
    } else {
        keyed
    }
}

/// The timer interrupt handler's only action: latch a pending tick. Safe to
/// repeat before consumption; the flag just stays set.
pub fn tick(latch: &mut EventLatch)
    ensures
        *final(latch) == published_tick(*old(latch)),
{
    latch.publish_tick();
}

/// The keyboard interrupt handler's only action: latch the decoded key,
/// overwriting any event not yet consumed.
pub fn key(latch: &mut EventLatch, k: InputEvent)
    ensures
        *final(latch) == published_key(*old(latch), k),
{
    latch.publish_key(k);
}

/// One iteration of the endless main loop: drain both latch slots, apply a
/// pending key to the paddles, and on a pending tick advance the simulation
/// and hand back the commands for the redraw of the new state. With no
/// pending tick nothing is redrawn and `None` comes back.
pub fn cpu_loop(game: &mut PongGame, latch: &mut EventLatch) -> (r: Option<Vec<DrawCmd>>)
    requires
        wf(*old(game)),
        old(game).score_left < usize::MAX,
        old(game).score_right < usize::MAX,
    ensures
        wf(*final(game)),
        final(latch).ticked == false,
        final(latch).key == None::<InputEvent>,
        *final(game) == loop_step(*old(game), old(latch).ticked, old(latch).key),
        (r is Some) == old(latch).ticked,
        r matches Some(cmds) ==> cmds@ == render_spec(*final(game)),
{
    let k = latch.consume_key();
    if let Some(e) = k {
        game.key(e);
    }
    let ticked = latch.consume_tick();
    if ticked {
        Some(game.tick())
    } else {
        None
    }
}

} // verus!

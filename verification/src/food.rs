//! Food placement: a fresh food cell drawn uniformly at random inside the
//! arena.

use vstd::prelude::*;
use crate::Position;
use crate::snake::GameState;

verus! {

/// Relies on rand::random::<u32>: a random 32-bit value. Nothing is assumed
/// of it; the caller keeps the result in range itself.
#[verifier::external_body]
fn random_u32() -> u32 {
    rand::random::<u32>()
}

/// Draws a random position inside the `width` by `height` arena. Whatever the
/// random source returns, the result satisfies 0 <= x < width and
/// 0 <= y < height.
pub fn spawn_food(width: i32, height: i32) -> (p: Position)
    requires
        0 < width,
        0 < height,
    ensures
        0 <= p.x < width,
        0 <= p.y < height,
{
    let rx = random_u32();
    let ry = random_u32();
    let x = (rx % (width as u32)) as i32;
    let y = (ry % (height as u32)) as i32;
    Position { x, y }
}

/// The food tick: one fresh food item appears at a random cell inside the
/// arena. Occupied cells are not avoided: the new item may share a cell with
/// the snake or with older food.
pub fn food_spawner(state: &mut GameState)
    requires
        old(state).wf(),
    ensures
        final(state).wf(),
        final(state).foods@ == old(state).foods@.push(final(state).foods@.last()),
        final(state).foods@.len() == old(state).foods@.len() + 1,
        0 <= final(state).foods@.last().x < final(state).width,
        0 <= final(state).foods@.last().y < final(state).height,
        final(state).segments.0@ == old(state).segments.0@,
        final(state).head == old(state).head,
        final(state).width == old(state).width,
        final(state).height == old(state).height,
        final(state).last_tail == old(state).last_tail,
{
    let p = spawn_food(state.width, state.height);
    state.foods.push(p);
}

} // verus!

//! Collision detection between the actor and the pipes, ground and ceiling.

use vstd::prelude::*;

verus! {

use crate::components::{Bird, Pipe};
use crate::constants::{BIRD_SIZE, GROUND_HEIGHT, POS_LIMIT};
use crate::resources::{DeathEvent, GameViewport};

/// True when the actor's square reaches the top of the ground strip.
pub open spec fn ground_collision_spec(y: int, playfield_height: int) -> bool {
    y - BIRD_SIZE / 2 <= -(playfield_height / 2) + GROUND_HEIGHT
}

/// True when the actor's square reaches the ceiling.
pub open spec fn ceiling_collision_spec(y: int, playfield_height: int) -> bool {
    y + BIRD_SIZE / 2 >= playfield_height / 2
}

/// True when the actor's centered square and a centered rectangle overlap on
/// both axes; touching edges do not count.
pub open spec fn aabb_collision_spec(
    ax: int,
    ay: int,
    a_size: int,
    bx: int,
    by: int,
    b_width: int,
    b_height: int,
) -> bool {
    &&& ax + a_size / 2 > bx - b_width / 2
    &&& ax - a_size / 2 < bx + b_width / 2
    &&& ay + a_size / 2 > by - b_height / 2
    &&& ay - a_size / 2 < by + b_height / 2
}

/// True when the actor overlaps the pipe.
pub open spec fn pipe_collision_spec(bird: Bird, pipe: Pipe) -> bool {
    aabb_collision_spec(
        bird.x as int,
        bird.y as int,
        BIRD_SIZE as int,
        pipe.x as int,
        pipe.y as int,
        pipe.width as int,
        pipe.height as int,
    )
}

/// True when anything kills the actor: the ground, the ceiling or any pipe.
pub open spec fn any_collision_spec(bird: Bird, pipes: Seq<Pipe>, playfield_height: int) -> bool {
    ||| ground_collision_spec(bird.y as int, playfield_height)
    ||| ceiling_collision_spec(bird.y as int, playfield_height)
    ||| exists|i: int| 0 <= i < pipes.len() && pipe_collision_spec(bird, pipes[i])
}

/// Tests the actor's square against the top of the ground strip.
pub fn check_ground_collision(y: i64, viewport: &GameViewport) -> (r: bool)
    requires
        viewport.wf(),
        -POS_LIMIT <= y <= POS_LIMIT,
    ensures
        r == ground_collision_spec(y as int, viewport.height as int),
{
    let ground_top: i64 = -viewport.half_height() + GROUND_HEIGHT;
    y - BIRD_SIZE / 2 <= ground_top
}

/// Tests the actor's square against the ceiling.
pub fn check_ceiling_collision(y: i64, viewport: &GameViewport) -> (r: bool)
    requires
        viewport.wf(),
        -POS_LIMIT <= y <= POS_LIMIT,
    ensures
        r == ceiling_collision_spec(y as int, viewport.height as int),
{
    y + BIRD_SIZE / 2 >= viewport.half_height()
}

/// Tests the actor's square against one pipe's rectangle, each axis
/// independently.
pub fn check_aabb_collision(bird: &Bird, pipe: &Pipe) -> (r: bool)
    requires
        -POS_LIMIT <= bird.x <= POS_LIMIT,
        -POS_LIMIT <= bird.y <= POS_LIMIT,
        pipe.wf(),
    ensures
        r == pipe_collision_spec(*bird, *pipe),
{
    let half_a: i64 = BIRD_SIZE / 2;
    let half_b_w: i64 = pipe.width / 2;
    let half_b_h: i64 = pipe.height / 2;
    bird.x + half_a > pipe.x - half_b_w && bird.x - half_a < pipe.x + half_b_w && bird.y + half_a
        > pipe.y - half_b_h && bird.y - half_a < pipe.y + half_b_h
}

/// Tests the actor against every pipe.
pub fn check_pipe_collisions(bird: &Bird, pipes: &Vec<Pipe>) -> (r: bool)
    requires
        -POS_LIMIT <= bird.x <= POS_LIMIT,
        -POS_LIMIT <= bird.y <= POS_LIMIT,
        forall|i: int| 0 <= i < pipes@.len() ==> (#[trigger] pipes@[i]).wf(),
    ensures
        r == exists|i: int|
            0 <= i < pipes@.len() && pipe_collision_spec(*bird, #[trigger] pipes@[i]),
{
    let mut idx: usize = 0;
    while idx < pipes.len()
        invariant
            0 <= idx <= pipes@.len(),
            -POS_LIMIT <= bird.x <= POS_LIMIT,
            -POS_LIMIT <= bird.y <= POS_LIMIT,
            forall|i: int| 0 <= i < pipes@.len() ==> (#[trigger] pipes@[i]).wf(),
            forall|i: int| 0 <= i < idx ==> !pipe_collision_spec(*bird, #[trigger] pipes@[i]),
        decreases pipes@.len() - idx,
    {
        if check_aabb_collision(bird, &pipes[idx]) {
            return true;
        }
        idx = idx + 1;
    }
    false
}

/// Checks ground, ceiling and pipes in that priority, stopping at the first
/// hit. At most one death is reported however many of them overlap at once,
/// and it carries the actor's position.
pub fn check_collisions(bird: &Bird, pipes: &Vec<Pipe>, viewport: &GameViewport) -> (died: Option<
    DeathEvent,
>)
    requires
        viewport.wf(),
        -POS_LIMIT <= bird.x <= POS_LIMIT,
        -POS_LIMIT <= bird.y <= POS_LIMIT,
        forall|i: int| 0 <= i < pipes@.len() ==> (#[trigger] pipes@[i]).wf(),
    ensures
        died is Some <==> any_collision_spec(*bird, pipes@, viewport.height as int),
        died is Some ==> died == Some(DeathEvent { x: bird.x, y: bird.y }),
{
    if check_ground_collision(bird.y, viewport) {
        return Some(DeathEvent { x: bird.x, y: bird.y });
    }
    if check_ceiling_collision(bird.y, viewport) {
        return Some(DeathEvent { x: bird.x, y: bird.y });
    }
    if check_pipe_collisions(bird, pipes) {
        return Some(DeathEvent { x: bird.x, y: bird.y });
    }
    None
}

} // verus!

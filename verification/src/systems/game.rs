//! The game mode transitions: starting a round from the menu, and the
//! restart protocol after a death.

use vstd::prelude::*;

verus! {

use crate::components::{Bird, Pipe};
use crate::sim::GameSim;
use crate::states::GameState;

/// Resets the actor to its fixed start state.
pub fn reset_bird(bird: &mut Bird)
    ensures
        *final(bird) == Bird::start_spec(),
{
    *bird = Bird::start();
}

/// Removes every pipe from the playfield.
pub fn despawn_all_pipes(pipes: &mut Vec<Pipe>)
    ensures
        final(pipes)@ == Seq::<Pipe>::empty(),
{
    pipes.clear();
}

/// Starts a round from the menu on the confirm signal; without it the menu
/// waits. Nothing else is touched.
pub fn start_game(sim: &mut GameSim, confirm: bool)
    requires
        old(sim).wf(),
        old(sim).state == GameState::Menu,
    ensures
        *final(sim) == (GameSim {
            state: if confirm {
                GameState::Playing
            } else {
                GameState::Menu
            },
            ..*old(sim)
        }),
        final(sim).wf(),
{
    if confirm {
        sim.state = GameState::Playing;
    }
    proof {
        assert(*sim =~= (GameSim {
            state: if confirm {
                GameState::Playing
            } else {
                GameState::Menu
            },
            ..*old(sim)
        }));
    }
}

/// Restarts after a death on the confirm signal: the actor returns to its
/// start state, every pipe is removed, the score returns to zero and the
/// spawn countdown to a full period, and a new round begins at once.
/// Without the signal the dead world waits unchanged.
pub fn restart_game(sim: &mut GameSim, confirm: bool)
    requires
        old(sim).wf(),
        old(sim).state == GameState::GameOver,
    ensures
        !confirm ==> *final(sim) == *old(sim),
        confirm ==> ({
            &&& final(sim).state == GameState::Playing
            &&& final(sim).bird == Bird::start_spec()
            &&& final(sim).pipes@ == Seq::<Pipe>::empty()
            &&& final(sim).score.0 == 0
            &&& final(sim).spawn_timer.remaining == old(sim).spawn_timer.interval
            &&& final(sim).spawn_timer.interval == old(sim).spawn_timer.interval
            &&& final(sim).rng == old(sim).rng
            &&& final(sim).viewport == old(sim).viewport
            &&& final(sim).shake == old(sim).shake
            &&& final(sim).screen_flash == old(sim).screen_flash
            &&& final(sim).edge_flash == old(sim).edge_flash
            &&& final(sim).particles@ == old(sim).particles@
            &&& final(sim).squash == old(sim).squash
            &&& final(sim).score_pop == old(sim).score_pop
            &&& final(sim).camera_offset_x == old(sim).camera_offset_x
            &&& final(sim).camera_offset_y == old(sim).camera_offset_y
            &&& final(sim).bird_scale_x == old(sim).bird_scale_x
            &&& final(sim).bird_scale_y == old(sim).bird_scale_y
            &&& final(sim).score_scale == old(sim).score_scale
            &&& final(sim).flash_overlay_r == old(sim).flash_overlay_r
            &&& final(sim).flash_overlay_g == old(sim).flash_overlay_g
            &&& final(sim).flash_overlay_b == old(sim).flash_overlay_b
            &&& final(sim).flash_overlay_a == old(sim).flash_overlay_a
            &&& final(sim).edge_overlay_r == old(sim).edge_overlay_r
            &&& final(sim).edge_overlay_g == old(sim).edge_overlay_g
            &&& final(sim).edge_overlay_b == old(sim).edge_overlay_b
            &&& final(sim).edge_overlay_a == old(sim).edge_overlay_a
        }),
        final(sim).wf(),
{
    if confirm {
        reset_bird(&mut sim.bird);
        despawn_all_pipes(&mut sim.pipes);
        sim.score.reset();
        sim.spawn_timer.reset();
        sim.state = GameState::Playing;
    }
}

} // verus!

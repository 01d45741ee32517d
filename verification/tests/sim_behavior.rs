//! Behavior of the assembled simulation: the mode machine, physics
//! scenarios, difficulty scaling, scoring, collisions and the restart
//! protocol.

use flappy_core::components::{Bird, Pipe, PipeRole, Scored};
use flappy_core::resources::{EdgeFlashState, GameViewport};
use flappy_core::sim::{GameSim, TickInput};
use flappy_core::states::GameState;
use flappy_core::systems::bird::bird_physics;
use flappy_core::systems::pipes::{pipe_movement, spawn_pipe_pair};
use flappy_core::rng::RandomSource;

fn step(dt: i64, flap: bool, confirm: bool) -> TickInput {
    TickInput { dt, flap, confirm }
}

/// The gap implied by a spawned pair: what the pipes and the gap leave of
/// the space between ceiling and ground, up to the rounding of half a gap.
fn implied_gap(top: &Pipe, bottom: &Pipe) -> i64 {
    550_000 - top.height - bottom.height
}

#[test]
fn falling_bird_updates_velocity_and_height() {
    // one tick of 20 ms at gravity -800: -900 falls to -916, y to -18.32
    let mut bird = Bird { velocity: -900_000, x: -50_000, y: 0, tilt: 0 };
    bird_physics(&mut bird, 20);
    assert_eq!(bird.velocity, -916_000);
    assert_eq!(bird.y, -18_320);
}

#[test]
fn falling_bird_strictly_loses_height_between_flaps() {
    let mut bird = Bird { velocity: -1_000, x: -50_000, y: 0, tilt: 0 };
    let mut last_y = bird.y;
    let mut last_v = bird.velocity;
    for dt in [1i64, 16, 16, 40, 200, 7] {
        bird_physics(&mut bird, dt);
        assert!(bird.y < last_y);
        assert!(bird.velocity <= last_v);
        last_y = bird.y;
        last_v = bird.velocity;
    }
}

#[test]
fn gap_at_score_zero_stays_within_the_start_bounds() {
    for seed in [3u64, 77, 4242, 987_654_321] {
        let mut pipes: Vec<Pipe> = Vec::new();
        let mut rng = RandomSource::new(seed);
        let viewport = GameViewport::default();
        spawn_pipe_pair(&mut pipes, &mut rng, 0, &viewport);
        let gap = implied_gap(&pipes[0], &pipes[1]);
        assert!((139_999..=160_000).contains(&gap));
        assert!(pipes[0].height > 0 && pipes[1].height > 0);
        assert_eq!(pipes[0].x, 260_000);
        assert_eq!(pipes[1].x, 260_000);
        assert!(matches!(pipes[0].role, PipeRole::Top));
        assert!(matches!(pipes[1].role, PipeRole::Bottom(Scored(false))));
    }
}

#[test]
fn gap_at_the_difficulty_cap_is_always_the_end_gap() {
    // at score 20 both gap bounds collapse onto 110, whatever is drawn
    for seed in [1u64, 2, 3, 0xDEADBEEF, 555] {
        let mut pipes: Vec<Pipe> = Vec::new();
        let mut rng = RandomSource::new(seed);
        let viewport = GameViewport::default();
        spawn_pipe_pair(&mut pipes, &mut rng, 20, &viewport);
        assert_eq!(implied_gap(&pipes[0], &pipes[1]), 110_000);
    }
    // and beyond the cap nothing changes
    let mut pipes: Vec<Pipe> = Vec::new();
    let mut rng = RandomSource::new(17);
    let viewport = GameViewport::default();
    spawn_pipe_pair(&mut pipes, &mut rng, 57, &viewport);
    assert_eq!(implied_gap(&pipes[0], &pipes[1]), 110_000);
}

#[test]
fn edge_flash_alpha_is_the_linear_time_fraction_of_the_peak() {
    // half the time left at peak alpha 0.3 gives 0.15
    let flash = EdgeFlashState {
        duration: 50,
        total_duration: 100,
        color_r: 1000,
        color_g: 900,
        color_b: 300,
        max_alpha: 300,
    };
    assert_eq!(flash.current_alpha(), 150);
}

#[test]
fn menu_waits_for_confirm_then_starts_playing() {
    let mut sim = GameSim::new(42);
    assert!(matches!(sim.state, GameState::Menu));
    sim.tick(step(16, true, false));
    assert!(matches!(sim.state, GameState::Menu));
    sim.tick(step(16, false, true));
    assert!(matches!(sim.state, GameState::Playing));
    assert_eq!(sim.score.0, 0);
    assert!(sim.pipes.is_empty());
}

#[test]
fn flap_sets_the_velocity_and_raises_the_feedback() {
    let mut sim = GameSim::new(42);
    sim.tick(step(0, false, true));
    let events = sim.tick(step(10, true, false));
    // the impulse overwrites the speed, then gravity pulls for 10 ms
    assert_eq!(sim.bird.velocity, 350_000 - 8_000);
    let flap = events.flap.expect("a flap was pressed");
    assert_eq!((flap.x, flap.y), (-50_000, 0));
    assert!(sim.squash.is_some());
    let burst = sim.particles.len();
    assert!((3..=6).contains(&burst));
    // the squash starts fully deformed: narrower and taller than neutral
    assert!(sim.bird_scale_x < 1000);
    assert!(sim.bird_scale_y > 1000);
}

#[test]
fn passing_a_pipe_scores_exactly_once() {
    let mut sim = GameSim::new(7);
    sim.tick(step(0, false, true));
    sim.pipes.push(Pipe {
        x: -49_000,
        y: -200_000,
        width: 60_000,
        height: 100_000,
        role: PipeRole::Bottom(Scored(false)),
    });
    let events = sim.tick(step(10, false, false));
    assert_eq!(sim.score.0, 1);
    assert_eq!(events.score_events.len(), 1);
    assert!(matches!(sim.pipes[0].role, PipeRole::Bottom(Scored(true))));
    // the gold edge flash and the score pop both started
    assert_eq!(sim.edge_flash.total_duration, 100);
    assert!(sim.score_scale > 1000);
    // a second tick finds the pipe already counted
    let events = sim.tick(step(10, false, false));
    assert_eq!(sim.score.0, 1);
    assert_eq!(events.score_events.len(), 0);
}

#[test]
fn simultaneous_ground_and_pipe_overlap_kills_exactly_once() {
    let mut sim = GameSim::new(5);
    sim.tick(step(0, false, true));
    // a pipe hugging the ground right under the actor's column
    sim.pipes.push(Pipe {
        x: -50_000,
        y: -275_000,
        width: 60_000,
        height: 50_000,
        role: PipeRole::Top,
    });
    // fall from just above the ground into both at once
    sim.bird.y = -230_000;
    sim.bird.velocity = -200_000;
    let events = sim.tick(step(100, false, false));
    let death = events.death.expect("the round ended");
    assert!(matches!(sim.state, GameState::GameOver));
    assert_eq!(death.x, -50_000);
    assert_eq!(death.y, sim.bird.y);
    // death feedback: shake and red flash started, then decayed by this tick
    assert_eq!(sim.shake.duration, 200);
    assert_eq!(sim.screen_flash.total_duration, 150);
    assert_eq!(sim.screen_flash.duration, 50);
    assert_eq!(sim.particles.len(), 15);
    // the dead world raises no second death
    let events = sim.tick(step(100, false, false));
    assert!(events.death.is_none());
    assert!(matches!(sim.state, GameState::GameOver));
}

#[test]
fn restart_resets_the_whole_round() {
    let mut sim = GameSim::new(11);
    sim.tick(step(0, false, true));
    sim.score.0 = 9;
    sim.pipes.push(Pipe {
        x: 100_000,
        y: 100_000,
        width: 60_000,
        height: 80_000,
        role: PipeRole::Top,
    });
    // a long fall ends the round
    sim.tick(step(10_000, false, false));
    assert!(matches!(sim.state, GameState::GameOver));
    // waiting without confirm changes nothing of the round
    sim.tick(step(16, false, false));
    assert!(matches!(sim.state, GameState::GameOver));
    assert_eq!(sim.score.0, 9);
    // confirm runs the reset protocol and resumes play at once
    sim.tick(step(16, false, true));
    assert!(matches!(sim.state, GameState::Playing));
    assert_eq!(sim.score.0, 0);
    assert!(sim.pipes.is_empty());
    assert_eq!(sim.bird.velocity, 0);
    assert_eq!(sim.bird.x, -50_000);
    assert_eq!(sim.bird.y, 0);
    assert_eq!(sim.bird.tilt, 0);
    assert_eq!(sim.spawn_timer.remaining, sim.spawn_timer.interval);
}

#[test]
fn score_never_falls_across_a_round() {
    let mut sim = GameSim::new(123);
    sim.tick(step(0, false, true));
    let mut last = sim.score.0;
    for i in 0..400u32 {
        let flap = i % 17 == 0 && matches!(sim.state, GameState::Playing);
        sim.tick(step(16, flap, false));
        assert!(sim.score.0 >= last);
        last = sim.score.0;
        if matches!(sim.state, GameState::GameOver) {
            break;
        }
    }
}

#[test]
fn spawner_fires_on_the_timer_only_while_playing() {
    let mut sim = GameSim::new(3);
    // the menu does not tick the spawn timer
    sim.tick(step(1999, false, false));
    assert!(sim.pipes.is_empty());
    assert_eq!(sim.spawn_timer.remaining, 2000);
    sim.tick(step(0, false, true));
    // hold the actor in place so the round outlives the first spawn period
    for _ in 0..19 {
        sim.bird = Bird::start();
        sim.tick(step(100, false, false));
        assert!(matches!(sim.state, GameState::Playing));
    }
    assert!(sim.pipes.is_empty());
    assert_eq!(sim.spawn_timer.remaining, 100);
    sim.bird = Bird::start();
    sim.tick(step(100, false, false));
    assert_eq!(sim.pipes.len(), 2);
    assert_eq!(sim.spawn_timer.remaining, 2000);
    assert_eq!(sim.pipes[0].width, 60_000);
}

#[test]
fn pipes_scroll_left_and_despawn_past_the_edge() {
    let viewport = GameViewport::default();
    let mut pipes = vec![
        Pipe { x: -255_000, y: 0, width: 60_000, height: 100_000, role: PipeRole::Top },
        Pipe { x: 100_000, y: 0, width: 60_000, height: 100_000, role: PipeRole::Top },
    ];
    pipe_movement(&mut pipes, &viewport, 100);
    // 150 units per second for 100 ms moves each pipe 15 left
    assert_eq!(pipes.len(), 1);
    assert_eq!(pipes[0].x, 85_000);
}

//! Unit checks of the arithmetic, random source, timers, effects and
//! viewport pieces.

use flappy_core::components::{Bird, EdgeType, Particle, ParticleKind};
use flappy_core::systems::bird::bird_tilt;
use flappy_core::num::{clamp_i64, mul_div_trunc};
use flappy_core::resources::{
    EdgeFlashState, GameViewport, PipeSpawnTimer, Score, ScreenFlashState, ScreenShake,
};
use flappy_core::rng::RandomSource;
use flappy_core::systems::effects::{
    edge_strip_alpha, elastic_out, update_edge_flash, update_particles, update_screen_flash,
    update_screen_shake,
};
use flappy_core::systems::viewport::{
    build_edge_flashes, edge_strip_layout, edge_strip_multiplier, flash_fill_size,
    ground_fill_size, sky_fill_size,
};
use flappy_core::trig::{cos_milli, sin_milli};

#[test]
fn rand_f32_returns_value_in_range() {
    let mut rng = RandomSource::new(0x2545F4914F6CDD1D);
    for _ in 0..100 {
        let value = rng.next_fraction() as f32 / 10000.0;
        assert!((0.0..1.0).contains(&value));
    }
}

#[test]
fn rand_f32_produces_different_values() {
    let mut rng = RandomSource::new(0x2545F4914F6CDD1D);
    let values: Vec<f32> = (0..10).map(|_| rng.next_fraction() as f32 / 10000.0).collect();
    let first = values[0];
    assert!(values.iter().any(|&v| (v - first).abs() > f32::EPSILON));
}

#[test]
fn truncating_division_rounds_toward_zero() {
    assert_eq!(mul_div_trunc(7, -3, 2), -10);
    assert_eq!(mul_div_trunc(7, 3, 2), 10);
    assert_eq!(mul_div_trunc(-900_000, 20, 1000), -18_000);
    assert_eq!(clamp_i64(5, -3, 3), 3);
    assert_eq!(clamp_i64(-5, -3, 3), -3);
    assert_eq!(clamp_i64(1, -3, 3), 1);
}

#[test]
fn sine_hits_the_cardinal_points() {
    assert_eq!(sin_milli(0), 0);
    assert!(sin_milli(1571) >= 995 && sin_milli(1571) <= 1000);
    assert_eq!(sin_milli(3141), 0);
    assert!(sin_milli(4712) <= -995);
    assert!(cos_milli(0) >= 995);
    // a full turn brings the wave back
    assert_eq!(sin_milli(700), sin_milli(700 + 6283));
}

#[test]
fn elastic_out_pins_its_endpoints() {
    assert_eq!(elastic_out(0), 0);
    assert_eq!(elastic_out(1000), 1000);
    for t in [100i64, 250, 500, 750, 900] {
        let r = elastic_out(t);
        assert!((0..=1000).contains(&r));
    }
}

#[test]
fn spawn_timer_fires_and_restarts_with_overshoot() {
    let mut timer = PipeSpawnTimer::default();
    assert_eq!(timer.interval, 2000);
    assert!(!timer.tick(1500));
    assert_eq!(timer.remaining, 500);
    // 700 ms later it fired, and 200 ms of overshoot are carried over
    assert!(timer.tick(700));
    assert_eq!(timer.remaining, 1800);
    timer.reset();
    assert_eq!(timer.remaining, 2000);
}

#[test]
fn score_counts_up_and_resets() {
    let mut score = Score(0);
    score.increment();
    score.increment();
    assert_eq!(score.0, 2);
    score.reset();
    assert_eq!(score.0, 0);
}

#[test]
fn screen_flash_fades_linearly() {
    let mut flash = ScreenFlashState::default();
    assert!(!flash.is_active());
    flash.trigger(150, 1000, 300, 200, 600);
    assert!(flash.is_active());
    let overlay = update_screen_flash(&mut flash, 50);
    assert_eq!(flash.duration, 100);
    // two thirds of the time left at peak alpha 0.6 gives 0.4
    assert_eq!(overlay, (1000, 300, 200, 400));
    let overlay = update_screen_flash(&mut flash, 100);
    assert_eq!(overlay.3, 0);
    assert!(!flash.is_active());
    // an inert flash renders transparent black
    assert_eq!(update_screen_flash(&mut flash, 10), (0, 0, 0, 0));
}

#[test]
fn edge_flash_alpha_scales_with_strip_multiplier() {
    let mut flash = EdgeFlashState::default();
    flash.trigger(100, 1000, 900, 300, 300);
    let overlay = update_edge_flash(&mut flash, 50);
    // the flash alpha at half time, before the per-strip multiplier
    assert_eq!(overlay.3, 150);
    assert_eq!(edge_strip_alpha(150, 1000), 150);
    assert_eq!(edge_strip_alpha(150, 500), 75);
    assert_eq!(edge_strip_alpha(150, 0), 0);
}

#[test]
fn shake_decays_and_resets_the_camera_on_expiry() {
    let mut shake = ScreenShake::default();
    let mut rng = RandomSource::new(99);
    let mut ox: i64 = 77;
    let mut oy: i64 = -77;
    // inert shake touches nothing
    update_screen_shake(&mut shake, &mut rng, &mut ox, &mut oy, 16);
    assert_eq!((ox, oy), (77, -77));
    shake.trigger(300, 8000);
    update_screen_shake(&mut shake, &mut rng, &mut ox, &mut oy, 16);
    assert_eq!(shake.duration, 284);
    assert!(ox.abs() <= 8000 && oy.abs() <= 8000);
    // running past the end zeroes the displacement exactly
    update_screen_shake(&mut shake, &mut rng, &mut ox, &mut oy, 300);
    assert_eq!((ox, oy), (0, 0));
}

#[test]
fn particles_age_drift_and_die() {
    let p = Particle {
        x: 0,
        y: 0,
        velocity_x: 10_000,
        velocity_y: -2_000,
        world_velocity_x: -150_000,
        world_velocity_y: 0,
        lifetime: 100,
        initial_lifetime: 1500,
        size: 12_000,
        scale: 0,
        color_r: 1000,
        color_g: 1000,
        color_b: 1000,
        alpha: 700,
        kind: ParticleKind::Flap,
    };
    let mut live = vec![p];
    update_particles(&mut live, true, 50);
    assert_eq!(live.len(), 1);
    // drift and world scroll both move it while a round plays
    assert_eq!(live[0].x, 10_000 * 50 / 1000 - 150_000 * 50 / 1000);
    assert_eq!(live[0].y, -100);
    assert_eq!(live[0].lifetime, 50);
    // drag damps the drift
    assert_eq!(live[0].velocity_x, 9_800);
    let mut paused = vec![p];
    update_particles(&mut paused, false, 50);
    // without a playing round the world scroll rests
    assert_eq!(paused[0].x, 500);
    update_particles(&mut live, true, 50);
    assert_eq!(live.len(), 0);
}

#[test]
fn edge_strips_are_solid_then_fall_off_quadratically() {
    assert_eq!(edge_strip_multiplier(0), 1000);
    assert_eq!(edge_strip_multiplier(2), 1000);
    // strip 3 sits at fraction 0.375: past the solid 0.35, the falloff begins
    assert_eq!(edge_strip_multiplier(3), 925);
    assert!(edge_strip_multiplier(7) < edge_strip_multiplier(4));
    let strips = build_edge_flashes();
    assert_eq!(strips.len(), 32);
    assert!(matches!(strips[0].edge, EdgeType::Top));
    assert_eq!(strips[0].alpha_multiplier, 1000);
    assert_eq!(strips[4].strip_index, 1);
}

#[test]
fn viewport_follows_the_window_aspect_ratio() {
    let mut vp = GameViewport::default();
    assert_eq!(vp.width, 400_000);
    assert_eq!(vp.height, 600_000);
    vp.update_from_window(800, 600);
    assert_eq!(vp.width, 800_000);
    assert_eq!(vp.height, 600_000);
    assert_eq!(vp.half_width(), 400_000);
    assert_eq!(vp.half_height(), 300_000);
    let rect = edge_strip_layout(&vp, EdgeType::Top, 0);
    assert_eq!(rect, (0, 300_000 - 2_500, 1_600_000, 5_000));
    let rect = edge_strip_layout(&vp, EdgeType::Left, 1);
    assert_eq!(rect, (-400_000 + 7_500, 0, 5_000, 600_000));
    // playfield-filling sprites stretch past the visible width
    assert_eq!(ground_fill_size(&vp), (1_600_000, 50_000));
    assert_eq!(sky_fill_size(&vp), (1_600_000, 600_000));
    assert_eq!(flash_fill_size(&vp), (1_600_000, 1_200_000));
}

#[test]
fn tilt_eases_toward_the_velocity_target() {
    // a fast fall aims at the clamped downward tilt of -1.2 radians
    let mut bird = Bird { velocity: -900_000, x: -50_000, y: 0, tilt: 0 };
    bird_tilt(&mut bird, 100);
    assert_eq!(bird.tilt, -600);
    // a fresh flap aims at the full upward tilt of 0.5 radians
    let mut bird = Bird { velocity: 350_000, x: -50_000, y: 0, tilt: 0 };
    bird_tilt(&mut bird, 100);
    assert_eq!(bird.tilt, 250);
    bird_tilt(&mut bird, 100);
    assert_eq!(bird.tilt, 375);
}

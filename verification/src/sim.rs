//! The simulation context: all state of one session, and the tick function
//! that advances it.

use vstd::prelude::*;

verus! {

use crate::components::{Bird, BirdSquashStretch, Particle, Pipe, ScorePopAnimation};
use crate::constants::{
    BIRD_START_X, GAME_HEIGHT, POS_LIMIT, VEL_LIMIT,
};
use crate::resources::{
    DeathEvent, EdgeFlashState, FlapEvent, GameViewport, PipeSpawnTimer, Score, ScoreEvent,
    ScreenFlashState, ScreenShake,
};
use crate::rng::{draw_spec, fraction_of, lemma_rng_nth_step, rng_nth_state, xorshift_step, RandomSource};
use crate::states::GameState;
use crate::systems::bird::{
    bird_flap, bird_physics, bird_tilt, physics_position_spec, physics_velocity_spec,
    tilt_next_spec,
};
use crate::systems::collision::{
    any_collision_spec, ceiling_collision_spec, check_collisions, ground_collision_spec,
};
use crate::systems::effects::{
    aged_particle_spec, death_burst_spec, death_flash_state_spec, death_shake_state_spec, edge_flash_after_spec,
    edge_flash_overlay_spec, flap_burst_spec, flap_count_spec, flap_squash_state_spec,
    particle_wf, pop_after_spec, pop_scale_after_spec, pop_wf, score_edge_state_spec,
    score_pop_state_spec, screen_flash_after_spec, screen_flash_overlay_spec, shake_after_spec,
    shake_offsets_spec, spawn_death_particles, spawn_flap_particles, squash_after_spec,
    squash_scales_spec, squash_wf, trigger_bird_squash, trigger_death_effects, trigger_score_pop,
    trigger_score_effects, update_bird_squash, update_edge_flash, update_particles,
    update_score_pop, update_screen_flash, update_screen_shake,
};
use crate::systems::game::{restart_game, start_game};
use crate::systems::pipes::{
    pipe_movement, pipe_on_screen, pipe_spawner, scrolled_pipe, spawned_bottom_spec,
    spawned_top_spec,
};
use crate::systems::score::{newly_passed_count, score_pipes_spec, update_score};
use crate::resources::{timer_after, timer_fires};
use crate::constants::{DEATH_PARTICLE_COUNT, DT_LIMIT, FLAP_STRENGTH};
use crate::states::GameState::{GameOver, Menu, Playing};

/// The signals one tick consumes from the host: the elapsed milliseconds and
/// the two edge-triggered inputs.
#[derive(Clone, Copy, Debug, PartialEq, Eq, Structural)]
pub struct TickInput {
    /// Milliseconds since the previous tick.
    pub dt: i64,
    /// True when the flap input was pressed this tick.
    pub flap: bool,
    /// True when the confirm input was pressed this tick.
    pub confirm: bool,
}

/// The events one tick raised, already consumed by the feedback pipeline;
/// handed out for hosts that want to react too (sound, haptics).
pub struct TickEvents {
    /// The flap, if one was applied.
    pub flap: Option<FlapEvent>,
    /// One event per pipe pair passed this tick.
    pub score_events: Vec<ScoreEvent>,
    /// The collision that ended the round, if one happened.
    pub death: Option<DeathEvent>,
}

/// All state of one session.
pub struct GameSim {
    /// Current mode of the session.
    pub state: GameState,
    /// The player-controlled actor.
    pub bird: Bird,
    /// All live pipes, oldest first.
    pub pipes: Vec<Pipe>,
    /// Pipe pairs passed this round.
    pub score: Score,
    /// Countdown to the next pipe pair.
    pub spawn_timer: PipeSpawnTimer,
    /// The session's random source.
    pub rng: RandomSource,
    /// Logical playfield dimensions.
    pub viewport: GameViewport,
    /// Camera shake raised on death.
    pub shake: ScreenShake,
    /// Full-screen flash raised on death.
    pub screen_flash: ScreenFlashState,
    /// Playfield-edge flash raised on a score.
    pub edge_flash: EdgeFlashState,
    /// All live particles, oldest first.
    pub particles: Vec<Particle>,
    /// The actor's squash animation, while one runs.
    pub squash: Option<BirdSquashStretch>,
    /// The score text's pop animation, while one runs.
    pub score_pop: Option<ScorePopAnimation>,
    /// Horizontal camera displacement written by the shake.
    pub camera_offset_x: i64,
    /// Vertical camera displacement written by the shake.
    pub camera_offset_y: i64,
    /// The actor's horizontal draw scale in thousandths.
    pub bird_scale_x: i64,
    /// The actor's vertical draw scale in thousandths.
    pub bird_scale_y: i64,
    /// The score text's draw scale in thousandths.
    pub score_scale: i64,
    /// Red channel of the screen flash overlay drawn this tick.
    pub flash_overlay_r: i64,
    /// Green channel of the screen flash overlay drawn this tick.
    pub flash_overlay_g: i64,
    /// Blue channel of the screen flash overlay drawn this tick.
    pub flash_overlay_b: i64,
    /// Alpha of the screen flash overlay drawn this tick.
    pub flash_overlay_a: i64,
    /// Red channel of the edge flash strips drawn this tick.
    pub edge_overlay_r: i64,
    /// Green channel of the edge flash strips drawn this tick.
    pub edge_overlay_g: i64,
    /// Blue channel of the edge flash strips drawn this tick.
    pub edge_overlay_b: i64,
    /// Base alpha of the edge flash strips drawn this tick, before the
    /// per-strip gradient multiplier.
    pub edge_overlay_a: i64,
}

impl GameSim {
    /// Sane session: every resource within its own bounds, the actor at its
    /// fixed column, and, while a round is playing, the actor clear of the
    /// ground and the ceiling (a colliding actor ends the round within the
    /// tick that saw the collision).
    pub open spec fn wf(self) -> bool {
        &&& self.viewport.wf()
        &&& self.spawn_timer.wf()
        &&& self.shake.wf()
        &&& self.screen_flash.wf()
        &&& self.edge_flash.wf()
        &&& pop_wf(self.score_pop)
        &&& squash_wf(self.squash)
        &&& forall|i: int| 0 <= i < self.pipes@.len() ==> (#[trigger] self.pipes@[i]).wf()
        &&& forall|i: int|
            0 <= i < self.particles@.len() ==> particle_wf(#[trigger] self.particles@[i])
        &&& self.bird.x == BIRD_START_X
        &&& -VEL_LIMIT <= self.bird.velocity <= VEL_LIMIT
        &&& -VEL_LIMIT <= self.bird.tilt <= VEL_LIMIT
        &&& -POS_LIMIT <= self.bird.y <= POS_LIMIT
        &&& self.state == Playing ==> !ground_collision_spec(
            self.bird.y as int,
            GAME_HEIGHT as int,
        ) && !ceiling_collision_spec(self.bird.y as int, GAME_HEIGHT as int)
        &&& self.state == Menu ==> self.bird == Bird::start_spec()
    }

    /// Opens a fresh session in the menu, seeded for this run: the actor at
    /// its start state, no pipes, no points, every effect inert.
    pub fn new(seed: u64) -> (sim: GameSim)
        ensures
            sim.state == Menu,
            sim.bird == Bird::start_spec(),
            sim.pipes@ == Seq::<Pipe>::empty(),
            sim.score.0 == 0,
            sim.spawn_timer == (PipeSpawnTimer {
                remaining: crate::constants::PIPE_SPAWN_TIME,
                interval: crate::constants::PIPE_SPAWN_TIME,
            }),
            sim.rng.state == seed,
            sim.viewport == (GameViewport {
                width: crate::constants::GAME_WIDTH,
                height: GAME_HEIGHT,
            }),
            sim.particles@ == Seq::<Particle>::empty(),
            sim.squash is None,
            sim.score_pop is None,
            sim.shake.duration == 0,
            sim.screen_flash.duration == 0,
            sim.edge_flash.duration == 0,
            sim.camera_offset_x == 0,
            sim.camera_offset_y == 0,
            sim.bird_scale_x == 1000,
            sim.bird_scale_y == 1000,
            sim.score_scale == 1000,
            sim.wf(),
    {
        GameSim {
            state: GameState::initial(),
            bird: Bird::start(),
            pipes: Vec::new(),
            score: Score(0),
            spawn_timer: Default::default(),
            rng: RandomSource::new(seed),
            viewport: Default::default(),
            shake: Default::default(),
            screen_flash: Default::default(),
            edge_flash: Default::default(),
            particles: Vec::new(),
            squash: None,
            score_pop: None,
            camera_offset_x: 0,
            camera_offset_y: 0,
            bird_scale_x: 1000,
            bird_scale_y: 1000,
            score_scale: 1000,
            flash_overlay_r: 0,
            flash_overlay_g: 0,
            flash_overlay_b: 0,
            flash_overlay_a: 0,
            edge_overlay_r: 0,
            edge_overlay_g: 0,
            edge_overlay_b: 0,
            edge_overlay_a: 0,
        }
    }

    /// Refits the playfield to a resized display: the width follows the
    /// aspect ratio, the height never changes, nothing else is touched.
    pub fn update_viewport(&mut self, window_width: i64, window_height: i64)
        requires
            old(self).wf(),
            0 < window_width <= 1_000_000_000,
            0 < window_height <= 1_000_000_000,
            window_width <= 100_000 * window_height,
            window_height <= GAME_HEIGHT * window_width,
        ensures
            final(self).viewport.height == old(self).viewport.height,
            final(self).viewport.width == old(self).viewport.height * window_width / (
            window_height as int),
            *final(self) == (GameSim { viewport: final(self).viewport, ..*old(self) }),
            final(self).wf(),
    {
        self.viewport.update_from_window(window_width, window_height);
    }
}

/// The actor after one playing tick: the flap impulse if one was pressed,
/// then gravity into the speed, the speed into the height, and the tilt
/// eased toward its target.
pub open spec fn tick_bird_spec(b: Bird, flap: bool, dt: int) -> Bird {
    let v0 = if flap {
        FLAP_STRENGTH as int
    } else {
        b.velocity as int
    };
    let v1 = physics_velocity_spec(v0, dt);
    let y1 = physics_position_spec(b.y as int, v1, dt);
    let t1 = tilt_next_spec(b.tilt as int, v1, dt);
    Bird { velocity: v1 as i64, x: b.x, y: y1 as i64, tilt: t1 as i64 }
}

/// The pipes after one playing tick, before scoring: a pair spawned if the
/// countdown expired, then everything scrolled left and the pipes past the
/// left edge dropped.
pub open spec fn tick_pipes_spec(
    pipes: Seq<Pipe>,
    timer: PipeSpawnTimer,
    s: u64,
    score: u32,
    hw: int,
    dt: int,
) -> Seq<Pipe> {
    let spawned = if timer_fires(timer, dt) {
        let r1 = fraction_of(xorshift_step(s)) as int;
        let r2 = fraction_of(xorshift_step(xorshift_step(s))) as int;
        pipes.push(spawned_top_spec(score as int, r1, r2, hw)).push(
            spawned_bottom_spec(score as int, r1, r2, hw),
        )
    } else {
        pipes
    };
    spawned.map_values(|p: Pipe| scrolled_pipe(p, dt)).filter(|p: Pipe| pipe_on_screen(p, hw))
}

impl GameSim {
    /// Runs the gameplay pass of one playing tick, in order: the flap
    /// impulse, physics, tilt, spawning, scrolling, collision and scoring,
    /// then the mode transition. Returns the events raised, at most one
    /// flap and one death among them.
    fn run_playing(&mut self, input: TickInput) -> (raised: (
        Option<FlapEvent>,
        Option<DeathEvent>,
        Vec<ScoreEvent>,
    ))
        requires
            old(self).wf(),
            old(self).state == Playing,
            0 <= input.dt <= DT_LIMIT,
            old(self).score.0 + old(self).pipes@.len() + 2 <= u32::MAX,
        ensures
            ({
                let dt = input.dt as int;
                let hw = old(self).viewport.width as int / 2;
                let bird1 = tick_bird_spec(old(self).bird, input.flap, dt);
                let pipes2 = tick_pipes_spec(
                    old(self).pipes@,
                    old(self).spawn_timer,
                    old(self).rng.state,
                    old(self).score.0,
                    hw,
                    dt,
                );
                let died = any_collision_spec(bird1, pipes2, GAME_HEIGHT as int);
                let newly = newly_passed_count(pipes2, bird1.x as int);
                &&& final(self).bird == bird1
                &&& final(self).pipes@ == score_pipes_spec(pipes2, bird1.x as int)
                &&& final(self).score.0 == old(self).score.0 + newly
                &&& final(self).spawn_timer == timer_after(old(self).spawn_timer, dt)
                &&& final(self).state == (if died {
                    GameOver
                } else {
                    Playing
                })
                &&& raised.1 == (if died {
                    Some(DeathEvent { x: bird1.x, y: bird1.y })
                } else {
                    Option::<DeathEvent>::None
                })
                &&& raised.2@.len() == newly
                &&& raised.0 == (if input.flap {
                    Some(FlapEvent { x: old(self).bird.x, y: old(self).bird.y })
                } else {
                    Option::<FlapEvent>::None
                })
                &&& final(self).rng.state == (if timer_fires(old(self).spawn_timer, dt) {
                    xorshift_step(xorshift_step(old(self).rng.state))
                } else {
                    old(self).rng.state
                })
            }),
            final(self).viewport == old(self).viewport,
            final(self).particles == old(self).particles,
            final(self).squash == old(self).squash,
            final(self).score_pop == old(self).score_pop,
            final(self).shake == old(self).shake,
            final(self).screen_flash == old(self).screen_flash,
            final(self).edge_flash == old(self).edge_flash,
            final(self).camera_offset_x == old(self).camera_offset_x,
            final(self).camera_offset_y == old(self).camera_offset_y,
            final(self).bird_scale_x == old(self).bird_scale_x,
            final(self).bird_scale_y == old(self).bird_scale_y,
            final(self).score_scale == old(self).score_scale,
            final(self).flash_overlay_r == old(self).flash_overlay_r,
            final(self).flash_overlay_g == old(self).flash_overlay_g,
            final(self).flash_overlay_b == old(self).flash_overlay_b,
            final(self).flash_overlay_a == old(self).flash_overlay_a,
            final(self).edge_overlay_r == old(self).edge_overlay_r,
            final(self).edge_overlay_g == old(self).edge_overlay_g,
            final(self).edge_overlay_b == old(self).edge_overlay_b,
            final(self).edge_overlay_a == old(self).edge_overlay_a,
            final(self).spawn_timer.wf(),
            forall|i: int| 0 <= i < final(self).pipes@.len() ==> (#[trigger] final(self).pipes@[i]).wf(),
            final(self).bird.x == BIRD_START_X,
            -VEL_LIMIT <= final(self).bird.velocity <= VEL_LIMIT,
            -VEL_LIMIT <= final(self).bird.tilt <= VEL_LIMIT,
            -50_000_000_000 <= final(self).bird.y <= 50_000_000_000,
            final(self).state == Playing ==> !ground_collision_spec(
                final(self).bird.y as int,
                GAME_HEIGHT as int,
            ) && !ceiling_collision_spec(final(self).bird.y as int, GAME_HEIGHT as int),
            final(self).score.0 >= old(self).score.0,
    {
        let dt = input.dt;
        let ghost dti = input.dt as int;
        let ghost hw = old(self).viewport.width as int / 2;
        let ghost bird1 = tick_bird_spec(old(self).bird, input.flap, dti);
        let ghost pipes2 = tick_pipes_spec(
            old(self).pipes@,
            old(self).spawn_timer,
            old(self).rng.state,
            old(self).score.0,
            hw,
            dti,
        );
        let ghost s0 = old(self).rng.state;
        let mut flap_ev: Option<FlapEvent> = None;
        if input.flap {
            flap_ev = Some(FlapEvent { x: self.bird.x, y: self.bird.y });
            bird_flap(&mut self.bird);
        }
        bird_physics(&mut self.bird, dt);
        bird_tilt(&mut self.bird, dt);
        proof {
            assert(self.bird == bird1);
        }
        pipe_spawner(
            &mut self.pipes,
            &mut self.spawn_timer,
            &mut self.rng,
            self.score.0,
            self.state,
            &self.viewport,
            dt,
        );
        proof {
            assert(self.pipes@.len() <= old(self).pipes@.len() + 2);
        }
        pipe_movement(&mut self.pipes, &self.viewport, dt);
        proof {
            assert(self.pipes@ == pipes2);
            let moved = (if timer_fires(old(self).spawn_timer, dti) {
                let r1 = fraction_of(xorshift_step(s0)) as int;
                let r2 = fraction_of(xorshift_step(xorshift_step(s0))) as int;
                old(self).pipes@.push(
                    spawned_top_spec(old(self).score.0 as int, r1, r2, hw),
                ).push(spawned_bottom_spec(old(self).score.0 as int, r1, r2, hw))
            } else {
                old(self).pipes@
            }).map_values(|p: Pipe| scrolled_pipe(p, dti));
            moved.lemma_filter_len(|p: Pipe| pipe_on_screen(p, hw));
            assert(pipes2.len() <= moved.len());
            assert(self.pipes@.len() <= old(self).pipes@.len() + 2);
        }
        let death_ev = check_collisions(&self.bird, &self.pipes, &self.viewport);
        let score_events = update_score(self.bird.x, &mut self.pipes, &mut self.score);
        if death_ev.is_some() {
            self.state = GameOver;
        }
        (flap_ev, death_ev, score_events)
    }

    /// Runs the feedback pass of one tick: the events raised this tick start
    /// their effects, then every effect timer decays by `dt`. Nothing of the
    /// gameplay state is touched.
    fn run_feedback(
        &mut self,
        flap_ev: Option<FlapEvent>,
        death_ev: Option<DeathEvent>,
        any_scored: bool,
        was_playing: bool,
        dt: i64,
    )
        requires
            0 <= dt <= DT_LIMIT,
            old(self).shake.wf(),
            old(self).screen_flash.wf(),
            old(self).edge_flash.wf(),
            pop_wf(old(self).score_pop),
            squash_wf(old(self).squash),
            forall|i: int|
                0 <= i < old(self).particles@.len() ==> particle_wf(
                    #[trigger] old(self).particles@[i],
                ),
            flap_ev matches Some(e) ==> -50_000_000_000 <= e.x <= 50_000_000_000
                && -50_000_000_000 <= e.y <= 50_000_000_000,
            death_ev matches Some(e) ==> -50_000_000_000 <= e.x <= 50_000_000_000
                && -50_000_000_000 <= e.y <= 50_000_000_000,
        ensures
            final(self).state == old(self).state,
            final(self).bird == old(self).bird,
            final(self).pipes == old(self).pipes,
            final(self).score == old(self).score,
            final(self).spawn_timer == old(self).spawn_timer,
            final(self).viewport == old(self).viewport,
            final(self).shake.wf(),
            final(self).screen_flash.wf(),
            final(self).edge_flash.wf(),
            pop_wf(final(self).score_pop),
            squash_wf(final(self).squash),
            forall|i: int|
                0 <= i < final(self).particles@.len() ==> particle_wf(
                    #[trigger] final(self).particles@[i],
                ),
            ({
                let dti = dt as int;
                let flapped = flap_ev is Some;
                let died = death_ev is Some;
                let s1 = old(self).rng.state;
                let fcount = flap_count_spec(draw_spec(s1, 1));
                let s2 = if flapped {
                    rng_nth_state(s1, (2 + 6 * fcount) as nat)
                } else {
                    s1
                };
                let s3 = if died {
                    rng_nth_state(s2, (5 * DEATH_PARTICLE_COUNT) as nat)
                } else {
                    s2
                };
                let sh = if died {
                    death_shake_state_spec()
                } else {
                    old(self).shake
                };
                let s4 = if sh.duration > 0 {
                    rng_nth_state(s3, 2)
                } else {
                    s3
                };
                let squash0 = if flapped {
                    Some(flap_squash_state_spec())
                } else {
                    old(self).squash
                };
                let pop0 = if any_scored {
                    Some(score_pop_state_spec())
                } else {
                    old(self).score_pop
                };
                let sflash0 = if died {
                    death_flash_state_spec()
                } else {
                    old(self).screen_flash
                };
                let eflash0 = if any_scored {
                    score_edge_state_spec()
                } else {
                    old(self).edge_flash
                };
                let flapburst = match flap_ev {
                    Option::Some(e) => flap_burst_spec(e.x as int, e.y as int, s1),
                    Option::None => Seq::<Particle>::empty(),
                };
                let deathburst = match death_ev {
                    Option::Some(e) => death_burst_spec(e.x as int, e.y as int, s2),
                    Option::None => Seq::<Particle>::empty(),
                };
                let offsets = shake_offsets_spec(
                    sh,
                    s3,
                    old(self).camera_offset_x as int,
                    old(self).camera_offset_y as int,
                    dti,
                );
                &&& final(self).rng.state == s4
                &&& final(self).squash == squash_after_spec(squash0, dti)
                &&& final(self).bird_scale_x == squash_scales_spec(squash0, dti).0
                &&& final(self).bird_scale_y == squash_scales_spec(squash0, dti).1
                &&& final(self).score_pop == pop_after_spec(pop0, dti)
                &&& final(self).score_scale == pop_scale_after_spec(pop0, dti)
                &&& final(self).screen_flash == screen_flash_after_spec(sflash0, dti)
                &&& final(self).flash_overlay_r == screen_flash_overlay_spec(sflash0, dti).0
                &&& final(self).flash_overlay_g == screen_flash_overlay_spec(sflash0, dti).1
                &&& final(self).flash_overlay_b == screen_flash_overlay_spec(sflash0, dti).2
                &&& final(self).flash_overlay_a == screen_flash_overlay_spec(sflash0, dti).3
                &&& final(self).edge_flash == edge_flash_after_spec(eflash0, dti)
                &&& final(self).edge_overlay_r == edge_flash_overlay_spec(eflash0, dti).0
                &&& final(self).edge_overlay_g == edge_flash_overlay_spec(eflash0, dti).1
                &&& final(self).edge_overlay_b == edge_flash_overlay_spec(eflash0, dti).2
                &&& final(self).edge_overlay_a == edge_flash_overlay_spec(eflash0, dti).3
                &&& final(self).shake == shake_after_spec(sh, dti)
                &&& final(self).camera_offset_x == offsets.0
                &&& final(self).camera_offset_y == offsets.1
                &&& final(self).particles@ == (old(self).particles@ + flapburst
                    + deathburst).filter(|p: Particle| p.lifetime > dt).map_values(
                    |p: Particle| aged_particle_spec(p, was_playing, dti),
                )
            }),
    {
        let ghost s1 = old(self).rng.state;
        let ghost fcount = flap_count_spec(draw_spec(s1, 1));
        let ghost flapburst = match flap_ev {
            Option::Some(e) => flap_burst_spec(e.x as int, e.y as int, s1),
            Option::None => Seq::<Particle>::empty(),
        };
        if let Some(ev) = flap_ev {
            let mut burst = spawn_flap_particles(ev.x, ev.y, &mut self.rng);
            proof {
                assert(burst@ =~= flapburst);
            }
            self.particles.append(&mut burst);
            trigger_bird_squash(&mut self.squash);
        }
        proof {
            assert(self.particles@ =~= old(self).particles@ + flapburst);
        }
        let ghost s2 = self.rng.state;
        let ghost deathburst = match death_ev {
            Option::Some(e) => death_burst_spec(e.x as int, e.y as int, s2),
            Option::None => Seq::<Particle>::empty(),
        };
        if any_scored {
            trigger_score_pop(&mut self.score_pop);
            trigger_score_effects(&mut self.edge_flash);
        }
        if let Some(ev) = death_ev {
            let mut burst = spawn_death_particles(ev.x, ev.y, &mut self.rng);
            proof {
                assert(burst@ =~= deathburst);
            }
            self.particles.append(&mut burst);
            trigger_death_effects(&mut self.shake, &mut self.screen_flash);
        }
        proof {
            assert(self.particles@ =~= old(self).particles@ + flapburst + deathburst);
        }
        let ghost s3 = self.rng.state;
        update_particles(&mut self.particles, was_playing, dt);
        let scales = update_bird_squash(&mut self.squash, dt);
        self.bird_scale_x = scales.0;
        self.bird_scale_y = scales.1;
        self.score_scale = update_score_pop(&mut self.score_pop, dt);
        proof {
            lemma_rng_nth_step(s3, 1);
            lemma_rng_nth_step(s3, 0);
            assert(rng_nth_state(s3, 0) == s3);
            assert(rng_nth_state(s3, 2) == xorshift_step(xorshift_step(s3)));
        }
        update_screen_shake(
            &mut self.shake,
            &mut self.rng,
            &mut self.camera_offset_x,
            &mut self.camera_offset_y,
            dt,
        );
        let overlay = update_screen_flash(&mut self.screen_flash, dt);
        self.flash_overlay_r = overlay.0;
        self.flash_overlay_g = overlay.1;
        self.flash_overlay_b = overlay.2;
        self.flash_overlay_a = overlay.3;
        let edge_overlay = update_edge_flash(&mut self.edge_flash, dt);
        self.edge_overlay_r = edge_overlay.0;
        self.edge_overlay_g = edge_overlay.1;
        self.edge_overlay_b = edge_overlay.2;
        self.edge_overlay_a = edge_overlay.3;
    }

    /// Advances the whole session by one tick.
    ///
    /// In the menu the confirm signal starts a round; after a death it runs
    /// the restart protocol; while a round plays, the tick runs input,
    /// physics, tilt, spawning, scrolling, collision and scoring in that
    /// order, and ends the round on any collision. The feedback pipeline
    /// then consumes the events the tick raised and decays its timers,
    /// whatever the mode. At most one death is raised per tick, and the
    /// score never falls except through the restart protocol.
    #[verifier::rlimit(100)]
    pub fn tick(&mut self, input: TickInput) -> (events: TickEvents)
        requires
            old(self).wf(),
            0 <= input.dt <= DT_LIMIT,
            old(self).score.0 + old(self).pipes@.len() + 2 <= u32::MAX,
        ensures
            final(self).wf(),
            final(self).viewport == old(self).viewport,
            old(self).state == Menu ==> ({
                &&& final(self).state == (if input.confirm {
                    Playing
                } else {
                    Menu
                })
                &&& final(self).bird == old(self).bird
                &&& final(self).pipes@ == old(self).pipes@
                &&& final(self).score == old(self).score
                &&& final(self).spawn_timer == old(self).spawn_timer
                &&& events.flap is None
                &&& events.death is None
                &&& events.score_events@.len() == 0
            }),
            old(self).state == GameOver ==> ({
                &&& final(self).state == (if input.confirm {
                    Playing
                } else {
                    GameOver
                })
                &&& input.confirm ==> final(self).bird == Bird::start_spec() && final(self).pipes@
                    == Seq::<Pipe>::empty() && final(self).score.0 == 0 && final(self).spawn_timer.remaining
                    == old(self).spawn_timer.interval && final(self).spawn_timer.interval == old(
                    self,
                ).spawn_timer.interval
                &&& !input.confirm ==> final(self).bird == old(self).bird && final(self).pipes@
                    == old(self).pipes@ && final(self).score == old(self).score && final(self).spawn_timer
                    == old(self).spawn_timer
                &&& events.flap is None
                &&& events.death is None
                &&& events.score_events@.len() == 0
            }),
            old(self).state == Playing ==> ({
                let dt = input.dt as int;
                let hw = old(self).viewport.width as int / 2;
                let bird1 = tick_bird_spec(old(self).bird, input.flap, dt);
                let pipes2 = tick_pipes_spec(
                    old(self).pipes@,
                    old(self).spawn_timer,
                    old(self).rng.state,
                    old(self).score.0,
                    hw,
                    dt,
                );
                let died = any_collision_spec(bird1, pipes2, GAME_HEIGHT as int);
                let newly = newly_passed_count(pipes2, bird1.x as int);
                &&& final(self).bird == bird1
                &&& final(self).pipes@ == score_pipes_spec(pipes2, bird1.x as int)
                &&& final(self).score.0 == old(self).score.0 + newly
                &&& final(self).score.0 >= old(self).score.0
                &&& final(self).spawn_timer == timer_after(old(self).spawn_timer, dt)
                &&& final(self).state == (if died {
                    GameOver
                } else {
                    Playing
                })
                &&& events.death == (if died {
                    Some(DeathEvent { x: bird1.x, y: bird1.y })
                } else {
                    Option::<DeathEvent>::None
                })
                &&& events.score_events@.len() == newly
                &&& events.flap == (if input.flap {
                    Some(FlapEvent { x: old(self).bird.x, y: old(self).bird.y })
                } else {
                    Option::<FlapEvent>::None
                })
            }),
            ({
                let dti = input.dt as int;
                let playing0 = old(self).state == Playing;
                let hw = old(self).viewport.width as int / 2;
                let bird1 = tick_bird_spec(old(self).bird, input.flap, dti);
                let pipes2 = tick_pipes_spec(
                    old(self).pipes@,
                    old(self).spawn_timer,
                    old(self).rng.state,
                    old(self).score.0,
                    hw,
                    dti,
                );
                let flapped = playing0 && input.flap;
                let died = playing0 && any_collision_spec(bird1, pipes2, GAME_HEIGHT as int);
                let scored = playing0 && newly_passed_count(pipes2, bird1.x as int) > 0;
                let s0 = old(self).rng.state;
                let s1 = if playing0 && timer_fires(old(self).spawn_timer, dti) {
                    xorshift_step(xorshift_step(s0))
                } else {
                    s0
                };
                let fcount = flap_count_spec(draw_spec(s1, 1));
                let s2 = if flapped {
                    rng_nth_state(s1, (2 + 6 * fcount) as nat)
                } else {
                    s1
                };
                let s3 = if died {
                    rng_nth_state(s2, (5 * DEATH_PARTICLE_COUNT) as nat)
                } else {
                    s2
                };
                let sh = if died {
                    death_shake_state_spec()
                } else {
                    old(self).shake
                };
                let s4 = if sh.duration > 0 {
                    rng_nth_state(s3, 2)
                } else {
                    s3
                };
                let squash0 = if flapped {
                    Some(flap_squash_state_spec())
                } else {
                    old(self).squash
                };
                let pop0 = if scored {
                    Some(score_pop_state_spec())
                } else {
                    old(self).score_pop
                };
                let sflash0 = if died {
                    death_flash_state_spec()
                } else {
                    old(self).screen_flash
                };
                let eflash0 = if scored {
                    score_edge_state_spec()
                } else {
                    old(self).edge_flash
                };
                let flapburst = if flapped {
                    flap_burst_spec(old(self).bird.x as int, old(self).bird.y as int, s1)
                } else {
                    Seq::<Particle>::empty()
                };
                let deathburst = if died {
                    death_burst_spec(bird1.x as int, bird1.y as int, s2)
                } else {
                    Seq::<Particle>::empty()
                };
                let offsets = shake_offsets_spec(
                    sh,
                    s3,
                    old(self).camera_offset_x as int,
                    old(self).camera_offset_y as int,
                    dti,
                );
                &&& final(self).rng.state == s4
                &&& final(self).squash == squash_after_spec(squash0, dti)
                &&& final(self).bird_scale_x == squash_scales_spec(squash0, dti).0
                &&& final(self).bird_scale_y == squash_scales_spec(squash0, dti).1
                &&& final(self).score_pop == pop_after_spec(pop0, dti)
                &&& final(self).score_scale == pop_scale_after_spec(pop0, dti)
                &&& final(self).screen_flash == screen_flash_after_spec(sflash0, dti)
                &&& final(self).flash_overlay_r == screen_flash_overlay_spec(sflash0, dti).0
                &&& final(self).flash_overlay_g == screen_flash_overlay_spec(sflash0, dti).1
                &&& final(self).flash_overlay_b == screen_flash_overlay_spec(sflash0, dti).2
                &&& final(self).flash_overlay_a == screen_flash_overlay_spec(sflash0, dti).3
                &&& final(self).edge_flash == edge_flash_after_spec(eflash0, dti)
                &&& final(self).edge_overlay_r == edge_flash_overlay_spec(eflash0, dti).0
                &&& final(self).edge_overlay_g == edge_flash_overlay_spec(eflash0, dti).1
                &&& final(self).edge_overlay_b == edge_flash_overlay_spec(eflash0, dti).2
                &&& final(self).edge_overlay_a == edge_flash_overlay_spec(eflash0, dti).3
                &&& final(self).shake == shake_after_spec(sh, dti)
                &&& final(self).camera_offset_x == offsets.0
                &&& final(self).camera_offset_y == offsets.1
                &&& final(self).particles@ == (old(self).particles@ + flapburst
                    + deathburst).filter(|p: Particle| p.lifetime > input.dt).map_values(
                    |p: Particle| aged_particle_spec(p, playing0, dti),
                )
            }),
    {
        let was_playing: bool = matches!(self.state, Playing);
        let mut flap_ev: Option<FlapEvent> = None;
        let mut death_ev: Option<DeathEvent> = None;
        let mut score_events: Vec<ScoreEvent> = Vec::new();
        match self.state {
            Menu => {
                start_game(self, input.confirm);
            },
            GameOver => {
                restart_game(self, input.confirm);
            },
            Playing => {
                let raised = self.run_playing(input);
                flap_ev = raised.0;
                death_ev = raised.1;
                score_events = raised.2;
            },
        }
        let any_scored: bool = score_events.len() > 0;
        self.run_feedback(flap_ev, death_ev, any_scored, was_playing, input.dt);
        TickEvents { flap: flap_ev, score_events, death: death_ev }
    }
}

} // verus!

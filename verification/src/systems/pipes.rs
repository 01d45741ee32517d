//! Pipe systems: difficulty-scaled spawning, scrolling and despawning.

use vstd::prelude::*;

verus! {

use crate::components::{Pipe, PipeRole, Scored};
use crate::constants::{
    DT_LIMIT, GAME_HEIGHT, GROUND_HEIGHT, PIPE_GAP_END, PIPE_GAP_MARGIN, PIPE_GAP_SCALE_SCORE,
    PIPE_GAP_START_MAX, PIPE_GAP_START_MIN, PIPE_WIDTH, WORLD_SCROLL_SPEED,
};
use crate::num::{
    div_trunc, lemma_div_trunc_bounds, lemma_div_trunc_ordered, mul_div_trunc,
};
use crate::resources::{timer_after, timer_fires, GameViewport, PipeSpawnTimer};
use crate::rng::{fraction_of, xorshift_step, RandomSource};
use crate::states::GameState;

/// The smallest gap drawable at a score: interpolated from the easy start
/// bound down to the cap bound as the score grows.
pub open spec fn gap_min_spec(score: int) -> int {
    if score >= PIPE_GAP_SCALE_SCORE as int {
        PIPE_GAP_END as int
    } else {
        PIPE_GAP_START_MIN + div_trunc(
            (PIPE_GAP_END - PIPE_GAP_START_MIN) * score,
            PIPE_GAP_SCALE_SCORE as int,
        )
    }
}

/// The largest gap drawable at a score; meets `gap_min_spec` at the cap.
pub open spec fn gap_max_spec(score: int) -> int {
    if score >= PIPE_GAP_SCALE_SCORE as int {
        PIPE_GAP_END as int
    } else {
        PIPE_GAP_START_MAX + div_trunc(
            (PIPE_GAP_END - PIPE_GAP_START_MAX) * score,
            PIPE_GAP_SCALE_SCORE as int,
        )
    }
}

/// The gap drawn from the fraction `r1`, uniform between the score's bounds.
pub open spec fn gap_size_spec(score: int, r1: int) -> int {
    gap_min_spec(score) + div_trunc(r1 * (gap_max_spec(score) - gap_min_spec(score)), 10000)
}

/// The vertical center of the gap drawn from the fraction `r2`, uniform over
/// the heights that leave both pipe stubs standing, with the margin kept
/// free.
pub open spec fn gap_center_spec(score: int, r1: int, r2: int) -> int {
    div_trunc(
        (r2 - 5000) * (GAME_HEIGHT - GROUND_HEIGHT - gap_size_spec(score, r1) - PIPE_GAP_MARGIN),
        10000,
    )
}

/// Height of the top pipe: from the ceiling down to the gap's upper edge.
pub open spec fn top_height_spec(score: int, r1: int, r2: int) -> int {
    GAME_HEIGHT / 2 - gap_center_spec(score, r1, r2) - gap_size_spec(score, r1) / 2
}

/// Height of the bottom pipe: from the ground up to the gap's lower edge.
pub open spec fn bottom_height_spec(score: int, r1: int, r2: int) -> int {
    GAME_HEIGHT / 2 + gap_center_spec(score, r1, r2) - gap_size_spec(score, r1) / 2 - GROUND_HEIGHT
}

/// The top pipe of a pair spawned at this score from fractions `r1`, `r2`,
/// placed just past the right playfield edge.
pub open spec fn spawned_top_spec(score: int, r1: int, r2: int, half_width: int) -> Pipe {
    Pipe {
        x: (half_width + PIPE_WIDTH) as i64,
        y: (GAME_HEIGHT / 2 - top_height_spec(score, r1, r2) / 2) as i64,
        width: PIPE_WIDTH,
        height: top_height_spec(score, r1, r2) as i64,
        role: PipeRole::Top,
    }
}

/// The bottom pipe of a pair, not yet scored.
pub open spec fn spawned_bottom_spec(score: int, r1: int, r2: int, half_width: int) -> Pipe {
    Pipe {
        x: (half_width + PIPE_WIDTH) as i64,
        y: (-(GAME_HEIGHT / 2) + GROUND_HEIGHT + bottom_height_spec(score, r1, r2) / 2) as i64,
        width: PIPE_WIDTH,
        height: bottom_height_spec(score, r1, r2) as i64,
        role: PipeRole::Bottom(Scored(false)),
    }
}

/// The gap bounds collapse onto the cap gap as the score reaches the cap,
/// and the drawn gap always lies between them: at score zero it lies within
/// the start bounds, and at the cap no randomness is left.
pub proof fn lemma_gap_size_bounds(score: int, r1: int)
    requires
        0 <= score,
        0 <= r1 < 10000,
    ensures
        gap_min_spec(score) <= gap_size_spec(score, r1) <= gap_max_spec(score),
        PIPE_GAP_END as int <= gap_size_spec(score, r1) <= PIPE_GAP_START_MAX as int,
        score == 0 ==> PIPE_GAP_START_MIN as int <= gap_size_spec(score, r1)
            <= PIPE_GAP_START_MAX as int,
        score >= PIPE_GAP_SCALE_SCORE as int ==> gap_size_spec(score, r1) == PIPE_GAP_END as int,
{
    let gmin = gap_min_spec(score);
    let gmax = gap_max_spec(score);
    if score < PIPE_GAP_SCALE_SCORE as int {
        assert((PIPE_GAP_END - PIPE_GAP_START_MIN) * score == -30000 * score);
        assert(div_trunc(-30000 * score, 20) == -1500 * score) by {
            assert((-30000 * score) == -(30000 * score));
            assert((30000 * score) / 20 == 1500 * score) by {
                vstd::arithmetic::div_mod::lemma_div_multiples_vanish(1500 * score, 20);
                assert(20 * (1500 * score) == 30000 * score) by (nonlinear_arith);
            }
        }
        assert((PIPE_GAP_END - PIPE_GAP_START_MAX) * score == -50000 * score);
        assert(div_trunc(-50000 * score, 20) == -2500 * score) by {
            assert((-50000 * score) == -(50000 * score));
            assert((50000 * score) / 20 == 2500 * score) by {
                vstd::arithmetic::div_mod::lemma_div_multiples_vanish(2500 * score, 20);
                assert(20 * (2500 * score) == 50000 * score) by (nonlinear_arith);
            }
        }
        assert(gmin == 140000 - 1500 * score);
        assert(gmax == 160000 - 2500 * score);
    }
    let spread = gmax - gmin;
    assert(spread >= 0) by (nonlinear_arith)
        requires
            spread == gmax - gmin,
            score >= PIPE_GAP_SCALE_SCORE as int ==> gmin == gmax,
            score < PIPE_GAP_SCALE_SCORE as int ==> gmin == 140000 - 1500 * score && gmax == 160000
                - 2500 * score && score < 20,
    ;
    assert(0 <= r1 * spread <= 10000 * spread) by (nonlinear_arith)
        requires
            0 <= r1 < 10000,
            spread >= 0,
    ;
    lemma_div_trunc_bounds(r1 * spread, 10000);
    lemma_div_trunc_ordered(r1 * spread, 10000 * spread, 10000);
    vstd::arithmetic::div_mod::lemma_div_multiples_vanish(spread, 10000);
}

/// Both pipes of a pair stand on their edge with positive height, and
/// together with the gap they tile the space between ceiling and ground,
/// up to the rounding of the halved gap.
pub proof fn lemma_pipe_pair_geometry(score: int, r1: int, r2: int)
    requires
        0 <= score,
        0 <= r1 < 10000,
        0 <= r2 < 10000,
    ensures
        0 < top_height_spec(score, r1, r2) <= GAME_HEIGHT as int,
        0 < bottom_height_spec(score, r1, r2) <= GAME_HEIGHT as int,
        top_height_spec(score, r1, r2) + bottom_height_spec(score, r1, r2) + 2 * (gap_size_spec(
            score,
            r1,
        ) / 2) == GAME_HEIGHT - GROUND_HEIGHT,
{
    lemma_gap_size_bounds(score, r1);
    let gap = gap_size_spec(score, r1);
    let span = GAME_HEIGHT - GROUND_HEIGHT - gap - PIPE_GAP_MARGIN;
    assert(290000 <= span <= 340000);
    let center = gap_center_spec(score, r1, r2);
    let h = span / 2;
    let m = span % 2;
    vstd::arithmetic::div_mod::lemma_fundamental_div_mod(span, 2);
    assert(5000 * span == 10000 * h + 5000 * m);
    vstd::arithmetic::div_mod::lemma_fundamental_div_mod_converse(5000 * span, 10000, h, 5000 * m);
    assert((5000 * span) / 10000 == h);
    assert(-(5000 * span) <= (r2 - 5000) * span <= 5000 * span) by (nonlinear_arith)
        requires
            0 <= r2 < 10000,
            span >= 0,
    ;
    lemma_div_trunc_ordered((r2 - 5000) * span, 5000 * span, 10000);
    lemma_div_trunc_ordered(-(5000 * span), (r2 - 5000) * span, 10000);
    assert(div_trunc(5000 * span, 10000) == h);
    assert(div_trunc(-(5000 * span), 10000) == -h);
    assert(-h <= center <= h);
    assert(2 * h <= span);
    assert(110000 <= gap <= 160000);
    assert(55000 <= gap / 2 <= 80000);
    vstd::arithmetic::div_mod::lemma_fundamental_div_mod(gap, 2);
}

/// Scrolls one pipe left by `dt` milliseconds of world speed.
pub open spec fn scrolled_pipe(p: Pipe, dt: int) -> Pipe {
    Pipe { x: (p.x - div_trunc(WORLD_SCROLL_SPEED as int * dt, 1000)) as i64, ..p }
}

/// True of a pipe still in play: not yet a full pipe width past the left
/// playfield edge.
pub open spec fn pipe_on_screen(p: Pipe, half_width: int) -> bool {
    p.x >= -(half_width + PIPE_WIDTH)
}

/// Moves every pipe left and drops those that have scrolled out, keeping
/// the order of the rest.
pub fn pipe_movement(pipes: &mut Vec<Pipe>, viewport: &GameViewport, dt: i64)
    requires
        viewport.wf(),
        0 <= dt <= DT_LIMIT,
        forall|i: int| 0 <= i < old(pipes)@.len() ==> (#[trigger] old(pipes)@[i]).wf(),
    ensures
        final(pipes)@ == old(pipes)@.map_values(|p: Pipe| scrolled_pipe(p, dt as int)).filter(
            |p: Pipe| pipe_on_screen(p, viewport.width as int / 2),
        ),
        forall|i: int| 0 <= i < final(pipes)@.len() ==> (#[trigger] final(pipes)@[i]).wf(),
{
    let ghost f = |p: Pipe| scrolled_pipe(p, dt as int);
    let ghost keep = |p: Pipe| pipe_on_screen(p, viewport.width as int / 2);
    let step: i64 = mul_div_trunc(WORLD_SCROLL_SPEED, dt, 1000);
    proof {
        lemma_div_trunc_bounds(WORLD_SCROLL_SPEED as int * dt as int, 1000);
    }
    let threshold: i64 = -(viewport.half_width() + PIPE_WIDTH);
    let mut kept: Vec<Pipe> = Vec::new();
    let mut idx: usize = 0;
    proof {
        assert(old(pipes)@.take(0int).map_values(f).filter(keep) =~= Seq::<Pipe>::empty());
    }
    while idx < pipes.len()
        invariant
            0 <= idx <= pipes@.len(),
            pipes@ == old(pipes)@,
            viewport.wf(),
            0 <= dt <= DT_LIMIT,
            step == div_trunc(WORLD_SCROLL_SPEED as int * dt as int, 1000),
            0 <= step <= 1_500_000,
            threshold == -(viewport.width as int / 2 + PIPE_WIDTH),
            f == (|p: Pipe| scrolled_pipe(p, dt as int)),
            keep == (|p: Pipe| pipe_on_screen(p, viewport.width as int / 2)),
            forall|i: int| 0 <= i < pipes@.len() ==> (#[trigger] pipes@[i]).wf(),
            kept@ == pipes@.take(idx as int).map_values(f).filter(keep),
            forall|i: int| 0 <= i < kept@.len() ==> (#[trigger] kept@[i]).wf(),
        decreases pipes@.len() - idx,
    {
        let p = pipes[idx];
        let moved = Pipe {
            x: p.x - step,
            y: p.y,
            width: p.width,
            height: p.height,
            role: p.role,
        };
        proof {
            assert(moved == f(p));
            let prefix = pipes@.take(idx as int).map_values(f);
            let next = pipes@.take(idx as int + 1).map_values(f);
            assert(next.drop_last() =~= prefix);
            assert(next.last() == f(p));
            reveal(Seq::filter);
            assert(next.filter(keep) == if keep(f(p)) {
                prefix.filter(keep).push(f(p))
            } else {
                prefix.filter(keep)
            });
        }
        if moved.x >= threshold {
            kept.push(moved);
        }
        idx = idx + 1;
    }
    proof {
        assert(pipes@.take(pipes@.len() as int) =~= pipes@);
    }
    *pipes = kept;
}

/// Spawns one pipe pair at the current difficulty: the gap size and center
/// are drawn from the random source, and both pipes are placed just past the
/// right playfield edge.
pub fn spawn_pipe_pair(pipes: &mut Vec<Pipe>, rng: &mut RandomSource, score: u32, viewport:
    &GameViewport)
    requires
        viewport.wf(),
        forall|i: int| 0 <= i < old(pipes)@.len() ==> (#[trigger] old(pipes)@[i]).wf(),
    ensures
        ({
            let r1 = fraction_of(xorshift_step(old(rng).state)) as int;
            let r2 = fraction_of(xorshift_step(xorshift_step(old(rng).state))) as int;
            let hw = viewport.width as int / 2;
            &&& final(rng).state == xorshift_step(xorshift_step(old(rng).state))
            &&& final(pipes)@ == old(pipes)@.push(spawned_top_spec(score as int, r1, r2, hw)).push(
                spawned_bottom_spec(score as int, r1, r2, hw),
            )
        }),
        forall|i: int| 0 <= i < final(pipes)@.len() ==> (#[trigger] final(pipes)@[i]).wf(),
{
    let score_i: i64 = if score >= PIPE_GAP_SCALE_SCORE {
        PIPE_GAP_SCALE_SCORE as i64
    } else {
        score as i64
    };
    let gap_min: i64 = if score >= PIPE_GAP_SCALE_SCORE {
        PIPE_GAP_END
    } else {
        PIPE_GAP_START_MIN + mul_div_trunc(
            PIPE_GAP_END - PIPE_GAP_START_MIN,
            score_i,
            PIPE_GAP_SCALE_SCORE as i64,
        )
    };
    let gap_max: i64 = if score >= PIPE_GAP_SCALE_SCORE {
        PIPE_GAP_END
    } else {
        PIPE_GAP_START_MAX + mul_div_trunc(
            PIPE_GAP_END - PIPE_GAP_START_MAX,
            score_i,
            PIPE_GAP_SCALE_SCORE as i64,
        )
    };
    proof {
        lemma_div_trunc_bounds((PIPE_GAP_END - PIPE_GAP_START_MIN) as int * score_i as int, 20);
        lemma_div_trunc_bounds((PIPE_GAP_END - PIPE_GAP_START_MAX) as int * score_i as int, 20);
        assert(gap_min == gap_min_spec(score as int));
        assert(gap_max == gap_max_spec(score as int));
        lemma_gap_size_bounds(score as int, 0);
    }
    let r1: i64 = rng.next_fraction() as i64;
    let ghost r1g = r1 as int;
    proof {
        assert(0 <= r1g * (gap_max - gap_min) as int <= 10000 * 50000) by (nonlinear_arith)
            requires
                0 <= r1g < 10000,
                0 <= gap_max as int - gap_min as int <= 50000,
        ;
        lemma_div_trunc_bounds(r1g * (gap_max - gap_min) as int, 10000);
    }
    let pipe_gap: i64 = gap_min + mul_div_trunc(r1, gap_max - gap_min, 10000);
    proof {
        assert(pipe_gap == gap_size_spec(score as int, r1g));
        lemma_gap_size_bounds(score as int, r1g);
    }
    let r2: i64 = rng.next_fraction() as i64;
    let ghost r2g = r2 as int;
    let span: i64 = GAME_HEIGHT - GROUND_HEIGHT - pipe_gap - PIPE_GAP_MARGIN;
    proof {
        assert(-5000 * 340000 <= (r2g - 5000) * span as int <= 5000 * 340000) by (nonlinear_arith)
            requires
                0 <= r2g < 10000,
                0 <= span as int <= 340000,
        ;
        lemma_div_trunc_bounds((r2g - 5000) * span as int, 10000);
    }
    let gap_y: i64 = mul_div_trunc(r2 - 5000, span, 10000);
    proof {
        assert(gap_y == gap_center_spec(score as int, r1g, r2g));
        lemma_pipe_pair_geometry(score as int, r1g, r2g);
    }
    let spawn_x: i64 = viewport.half_width() + PIPE_WIDTH;
    let top_height: i64 = GAME_HEIGHT / 2 - gap_y - pipe_gap / 2;
    let top = Pipe {
        x: spawn_x,
        y: GAME_HEIGHT / 2 - top_height / 2,
        width: PIPE_WIDTH,
        height: top_height,
        role: PipeRole::Top,
    };
    let bottom_height: i64 = GAME_HEIGHT / 2 + gap_y - pipe_gap / 2 - GROUND_HEIGHT;
    let bottom = Pipe {
        x: spawn_x,
        y: -(GAME_HEIGHT / 2) + GROUND_HEIGHT + bottom_height / 2,
        width: PIPE_WIDTH,
        height: bottom_height,
        role: PipeRole::Bottom(Scored(false)),
    };
    proof {
        let hw = viewport.width as int / 2;
        assert(top == spawned_top_spec(score as int, r1g, r2g, hw));
        assert(bottom == spawned_bottom_spec(score as int, r1g, r2g, hw));
    }
    pipes.push(top);
    pipes.push(bottom);
}

/// Paces the spawner: while a round is playing the countdown advances, and
/// each expiry spawns one pair at the current difficulty. In the menu and
/// after a death the countdown is paused, not reset.
pub fn pipe_spawner(
    pipes: &mut Vec<Pipe>,
    timer: &mut PipeSpawnTimer,
    rng: &mut RandomSource,
    score: u32,
    state: GameState,
    viewport: &GameViewport,
    dt: i64,
) -> (spawned: bool)
    requires
        viewport.wf(),
        old(timer).wf(),
        0 <= dt <= DT_LIMIT,
        forall|i: int| 0 <= i < old(pipes)@.len() ==> (#[trigger] old(pipes)@[i]).wf(),
    ensures
        spawned == (state == GameState::Playing && timer_fires(*old(timer), dt as int)),
        state != GameState::Playing ==> *final(timer) == *old(timer) && final(pipes)@ == old(
            pipes,
        )@ && *final(rng) == *old(rng),
        state == GameState::Playing ==> *final(timer) == timer_after(*old(timer), dt as int),
        !spawned ==> final(pipes)@ == old(pipes)@ && *final(rng) == *old(rng),
        spawned ==> ({
            let r1 = fraction_of(xorshift_step(old(rng).state)) as int;
            let r2 = fraction_of(xorshift_step(xorshift_step(old(rng).state))) as int;
            let hw = viewport.width as int / 2;
            &&& final(rng).state == xorshift_step(xorshift_step(old(rng).state))
            &&& final(pipes)@ == old(pipes)@.push(spawned_top_spec(score as int, r1, r2, hw)).push(
                spawned_bottom_spec(score as int, r1, r2, hw),
            )
        }),
        final(timer).wf(),
        forall|i: int| 0 <= i < final(pipes)@.len() ==> (#[trigger] final(pipes)@[i]).wf(),
{
    if !matches!(state, GameState::Playing) {
        return false;
    }
    let fired = timer.tick(dt);
    if fired {
        spawn_pipe_pair(pipes, rng, score, viewport);
        true
    } else {
        false
    }
}

} // verus!

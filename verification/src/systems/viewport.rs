//! The viewport adapter: playfield-filling sprite sizes and the geometry and
//! gradient of the edge flash strips, all recomputed from the viewport.

use vstd::prelude::*;

verus! {

use crate::components::{EdgeFlash, EdgeType};
use crate::constants::{
    GROUND_HEIGHT, SCORE_FLASH_BORDER_WIDTH, SCORE_FLASH_GRADIENT_STRIPS, SCORE_FLASH_SOLID_RATIO,
};
use crate::resources::GameViewport;

/// Width of one gradient strip: the border shared evenly by the strips.
pub open spec fn strip_width_spec() -> int {
    SCORE_FLASH_BORDER_WIDTH as int / (SCORE_FLASH_GRADIENT_STRIPS as int)
}

/// How far a strip's center sits from the playfield edge.
pub open spec fn strip_offset_spec(i: int) -> int {
    i * strip_width_spec() + strip_width_spec() / 2
}

/// A strip's fixed gradient multiplier, from its index alone: full opacity
/// within the solid inner fraction of the border, then a quadratic falloff
/// to zero at the border's inner edge.
pub open spec fn strip_multiplier_spec(i: int) -> int {
    let t = i * 1000 / (SCORE_FLASH_GRADIENT_STRIPS as int);
    if t < SCORE_FLASH_SOLID_RATIO as int {
        1000
    } else {
        let fade_t = (t - SCORE_FLASH_SOLID_RATIO) * 1000 / (1000 - SCORE_FLASH_SOLID_RATIO as int);
        let fade = 1000 - fade_t;
        fade * fade / 1000
    }
}

/// Computes a strip's gradient multiplier; never leaves `[0, 1000]`.
pub fn edge_strip_multiplier(i: u32) -> (m: i64)
    requires
        i < SCORE_FLASH_GRADIENT_STRIPS,
    ensures
        m == strip_multiplier_spec(i as int),
        0 <= m <= 1000,
{
    let t: i64 = (i as i64) * 1000 / (SCORE_FLASH_GRADIENT_STRIPS as i64);
    proof {
        vstd::arithmetic::div_mod::lemma_div_pos_is_pos(i as int * 1000, 8);
        vstd::arithmetic::div_mod::lemma_div_is_ordered(i as int * 1000, 7000, 8);
    }
    if t < SCORE_FLASH_SOLID_RATIO {
        1000
    } else {
        let fade_t: i64 = (t - SCORE_FLASH_SOLID_RATIO) * 1000 / (1000 - SCORE_FLASH_SOLID_RATIO);
        proof {
            vstd::arithmetic::div_mod::lemma_div_pos_is_pos(
                (t as int - SCORE_FLASH_SOLID_RATIO) * 1000,
                650,
            );
            vstd::arithmetic::div_mod::lemma_div_is_ordered(
                (t as int - SCORE_FLASH_SOLID_RATIO) * 1000,
                650_000,
                650,
            );
        }
        let fade: i64 = 1000 - fade_t;
        proof {
            vstd::arithmetic::div_mod::lemma_div_pos_is_pos(fade as int * fade as int, 1000);
            assert(0 <= fade as int * fade as int <= 1_000_000) by (nonlinear_arith)
                requires
                    0 <= fade as int <= 1000,
            ;
            vstd::arithmetic::div_mod::lemma_div_is_ordered(
                fade as int * fade as int,
                1_000_000,
                1000,
            );
        }
        fade * fade / 1000
    }
}

/// Center position and size of one edge flash strip, hugging its edge and
/// stepping inward with the strip index.
pub fn edge_strip_layout(viewport: &GameViewport, edge: EdgeType, i: u32) -> (rect: (
    i64,
    i64,
    i64,
    i64,
))
    requires
        viewport.wf(),
        i < SCORE_FLASH_GRADIENT_STRIPS,
    ensures
        edge == EdgeType::Top ==> rect == (
            0i64,
            (viewport.height as int / 2 - strip_offset_spec(i as int)) as i64,
            (2 * viewport.width) as i64,
            strip_width_spec() as i64,
        ),
        edge == EdgeType::Bottom ==> rect == (
            0i64,
            (-(viewport.height as int / 2) + strip_offset_spec(i as int)) as i64,
            (2 * viewport.width) as i64,
            strip_width_spec() as i64,
        ),
        edge == EdgeType::Left ==> rect == (
            (-(viewport.width as int / 2) + strip_offset_spec(i as int)) as i64,
            0i64,
            strip_width_spec() as i64,
            viewport.height,
        ),
        edge == EdgeType::Right ==> rect == (
            (viewport.width as int / 2 - strip_offset_spec(i as int)) as i64,
            0i64,
            strip_width_spec() as i64,
            viewport.height,
        ),
{
    let strip_width: i64 = SCORE_FLASH_BORDER_WIDTH / (SCORE_FLASH_GRADIENT_STRIPS as i64);
    let offset: i64 = (i as i64) * strip_width + strip_width / 2;
    match edge {
        EdgeType::Top => (0, viewport.half_height() - offset, 2 * viewport.width, strip_width),
        EdgeType::Bottom => (0, -viewport.half_height() + offset, 2 * viewport.width, strip_width),
        EdgeType::Left => (-viewport.half_width() + offset, 0, strip_width, viewport.height),
        EdgeType::Right => (viewport.half_width() - offset, 0, strip_width, viewport.height),
    }
}

/// Builds the full border: for each strip index, one strip per edge, each
/// carrying its precomputed gradient multiplier.
pub fn build_edge_flashes() -> (strips: Vec<EdgeFlash>)
    ensures
        strips@.len() == 4 * SCORE_FLASH_GRADIENT_STRIPS,
        forall|i: int|
            0 <= i < SCORE_FLASH_GRADIENT_STRIPS ==> {
                &&& (#[trigger] strips@[4 * i]) == (EdgeFlash {
                    alpha_multiplier: strip_multiplier_spec(i) as i64,
                    edge: EdgeType::Top,
                    strip_index: i as usize,
                })
                &&& strips@[4 * i + 1] == (EdgeFlash {
                    alpha_multiplier: strip_multiplier_spec(i) as i64,
                    edge: EdgeType::Bottom,
                    strip_index: i as usize,
                })
                &&& strips@[4 * i + 2] == (EdgeFlash {
                    alpha_multiplier: strip_multiplier_spec(i) as i64,
                    edge: EdgeType::Left,
                    strip_index: i as usize,
                })
                &&& strips@[4 * i + 3] == (EdgeFlash {
                    alpha_multiplier: strip_multiplier_spec(i) as i64,
                    edge: EdgeType::Right,
                    strip_index: i as usize,
                })
            },
{
    let mut strips: Vec<EdgeFlash> = Vec::new();
    let mut i: u32 = 0;
    while i < SCORE_FLASH_GRADIENT_STRIPS
        invariant
            0 <= i <= SCORE_FLASH_GRADIENT_STRIPS,
            strips@.len() == 4 * i,
            forall|k: int|
                0 <= k < i ==> {
                    &&& (#[trigger] strips@[4 * k]) == (EdgeFlash {
                        alpha_multiplier: strip_multiplier_spec(k) as i64,
                        edge: EdgeType::Top,
                        strip_index: k as usize,
                    })
                    &&& strips@[4 * k + 1] == (EdgeFlash {
                        alpha_multiplier: strip_multiplier_spec(k) as i64,
                        edge: EdgeType::Bottom,
                        strip_index: k as usize,
                    })
                    &&& strips@[4 * k + 2] == (EdgeFlash {
                        alpha_multiplier: strip_multiplier_spec(k) as i64,
                        edge: EdgeType::Left,
                        strip_index: k as usize,
                    })
                    &&& strips@[4 * k + 3] == (EdgeFlash {
                        alpha_multiplier: strip_multiplier_spec(k) as i64,
                        edge: EdgeType::Right,
                        strip_index: k as usize,
                    })
                },
        decreases SCORE_FLASH_GRADIENT_STRIPS - i,
    {
        let m: i64 = edge_strip_multiplier(i);
        strips.push(EdgeFlash { alpha_multiplier: m, edge: EdgeType::Top, strip_index: i as usize });
        strips.push(
            EdgeFlash { alpha_multiplier: m, edge: EdgeType::Bottom, strip_index: i as usize },
        );
        strips.push(
            EdgeFlash { alpha_multiplier: m, edge: EdgeType::Left, strip_index: i as usize },
        );
        strips.push(
            EdgeFlash { alpha_multiplier: m, edge: EdgeType::Right, strip_index: i as usize },
        );
        i = i + 1;
    }
    strips
}

/// Size of the ground sprite: wider than any viewport, at the ground height.
pub fn ground_fill_size(viewport: &GameViewport) -> (size: (i64, i64))
    requires
        viewport.wf(),
    ensures
        size == ((2 * viewport.width) as i64, GROUND_HEIGHT),
{
    (2 * viewport.width, GROUND_HEIGHT)
}

/// Size of the sky sprite: wider than any viewport, at full height.
pub fn sky_fill_size(viewport: &GameViewport) -> (size: (i64, i64))
    requires
        viewport.wf(),
    ensures
        size == ((2 * viewport.width) as i64, viewport.height),
{
    (2 * viewport.width, viewport.height)
}

/// Size of the full-screen flash overlay: beyond the viewport on both axes.
pub fn flash_fill_size(viewport: &GameViewport) -> (size: (i64, i64))
    requires
        viewport.wf(),
    ensures
        size == ((2 * viewport.width) as i64, (2 * viewport.height) as i64),
{
    (2 * viewport.width, 2 * viewport.height)
}

} // verus!

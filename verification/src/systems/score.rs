//! The scorer: counts each pipe pair exactly once as it passes the actor.

use vstd::prelude::*;

verus! {

use crate::components::{Pipe, PipeRole, Scored};
use crate::resources::{Score, ScoreEvent};

/// True of a bottom pipe that crosses the actor this tick: not yet counted,
/// and now strictly left of the actor.
pub open spec fn pipe_passes(p: Pipe, bird_x: int) -> bool {
    p.is_unscored_bottom() && p.x < bird_x
}

/// The pipe with its scored flag raised.
pub open spec fn scored_pipe(p: Pipe) -> Pipe {
    Pipe { role: PipeRole::Bottom(Scored(true)), ..p }
}

/// All pipes after one scorer pass: every crossing pipe is flagged, every
/// other pipe is untouched.
pub open spec fn score_pipes_spec(s: Seq<Pipe>, bird_x: int) -> Seq<Pipe> {
    s.map_values(|p: Pipe| if pipe_passes(p, bird_x) { scored_pipe(p) } else { p })
}

/// How many pipes cross the actor this tick.
pub open spec fn newly_passed_count(s: Seq<Pipe>, bird_x: int) -> int {
    s.filter(|p: Pipe| pipe_passes(p, bird_x)).len() as int
}

/// Flags every bottom pipe that has crossed the actor, counts one point per
/// flag raised, and returns one score event per point.
pub fn update_score(bird_x: i64, pipes: &mut Vec<Pipe>, score: &mut Score) -> (events: Vec<
    ScoreEvent,
>)
    requires
        old(score).0 + old(pipes)@.len() <= u32::MAX,
    ensures
        final(pipes)@ == score_pipes_spec(old(pipes)@, bird_x as int),
        events@.len() == newly_passed_count(old(pipes)@, bird_x as int),
        final(score).0 == old(score).0 + events@.len(),
        final(score).0 >= old(score).0,
{
    let ghost apply = |p: Pipe| if pipe_passes(p, bird_x as int) {
        scored_pipe(p)
    } else {
        p
    };
    let ghost passes = |p: Pipe| pipe_passes(p, bird_x as int);
    let mut events: Vec<ScoreEvent> = Vec::new();
    let mut idx: usize = 0;
    proof {
        assert(old(pipes)@.take(0int).map_values(apply) =~= Seq::<Pipe>::empty());
        assert(old(pipes)@.take(0int).filter(passes) =~= Seq::<Pipe>::empty());
    }
    while idx < pipes.len()
        invariant
            0 <= idx <= pipes@.len(),
            pipes@.len() == old(pipes)@.len(),
            old(score).0 + old(pipes)@.len() <= u32::MAX,
            apply == (|p: Pipe| if pipe_passes(p, bird_x as int) {
                scored_pipe(p)
            } else {
                p
            }),
            passes == (|p: Pipe| pipe_passes(p, bird_x as int)),
            forall|j: int| idx <= j < pipes@.len() ==> pipes@[j] == old(pipes)@[j],
            forall|j: int| 0 <= j < idx ==> pipes@[j] == apply(#[trigger] old(pipes)@[j]),
            events@.len() == old(pipes)@.take(idx as int).filter(passes).len(),
            score.0 == old(score).0 + events@.len(),
        decreases pipes@.len() - idx,
    {
        proof {
            let next = old(pipes)@.take(idx as int + 1);
            assert(next.drop_last() =~= old(pipes)@.take(idx as int));
            assert(next.last() == old(pipes)@[idx as int]);
            reveal(Seq::filter);
            assert(old(pipes)@.take(idx as int).filter(passes).len() <= old(pipes)@.take(
                idx as int,
            ).len()) by {
                old(pipes)@.take(idx as int).lemma_filter_len(passes);
            }
        }
        let p = pipes[idx];
        let crossed: bool = match p.role {
            PipeRole::Bottom(Scored(flag)) => !flag && p.x < bird_x,
            PipeRole::Top => false,
        };
        if crossed {
            let flagged = Pipe {
                x: p.x,
                y: p.y,
                width: p.width,
                height: p.height,
                role: PipeRole::Bottom(Scored(true)),
            };
            pipes.set(idx, flagged);
            score.increment();
            events.push(ScoreEvent);
        }
        idx = idx + 1;
    }
    proof {
        assert(old(pipes)@.take(old(pipes)@.len() as int) =~= old(pipes)@);
        assert(pipes@ =~= score_pipes_spec(old(pipes)@, bird_x as int));
    }
    events
}

/// If no element satisfies the filter, the filtered sequence is empty.
proof fn lemma_filter_none<A>(s: Seq<A>, pred: spec_fn(A) -> bool)
    requires
        forall|i: int| 0 <= i < s.len() ==> !pred(#[trigger] s[i]),
    ensures
        s.filter(pred) == Seq::<A>::empty(),
    decreases s.len(),
{
    reveal(Seq::filter);
    if s.len() > 0 {
        lemma_filter_none(s.drop_last(), pred);
    }
}

/// The scored flag is idempotent: one scorer pass leaves no crossing pipe
/// uncounted, so a second pass at the same actor position flags nothing and
/// scores nothing.
pub proof fn lemma_scoring_idempotent(s: Seq<Pipe>, bird_x: int)
    ensures
        newly_passed_count(score_pipes_spec(s, bird_x), bird_x) == 0,
        score_pipes_spec(score_pipes_spec(s, bird_x), bird_x) == score_pipes_spec(s, bird_x),
{
    let once = score_pipes_spec(s, bird_x);
    assert forall|i: int| 0 <= i < once.len() implies !pipe_passes(#[trigger] once[i], bird_x) by {
        assert(once[i] == if pipe_passes(s[i], bird_x) {
            scored_pipe(s[i])
        } else {
            s[i]
        });
    }
    lemma_filter_none(once, |p: Pipe| pipe_passes(p, bird_x));
    assert(score_pipes_spec(once, bird_x) =~= once);
}

} // verus!

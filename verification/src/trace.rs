//! Following one ray until it ends.
//!
//! The host advances the ray; the library looks at the state before every
//! step and decides whether the ray has fallen into the hole, has escaped, or
//! goes on.

use crate::binary64::Binary64;
use crate::config::horizon;
use crate::config::TraceConfig;
use crate::config::HORIZON_BITS;
use crate::ray::RayState;
use vstd::prelude::*;

verus! {

/// Where a radius lies.
#[derive(Clone, Copy, Debug, PartialEq, Eq, Structural)]
pub enum Region {
    /// At or inside the event horizon.
    Horizon,
    /// Outside the horizon and inside the escape radius.
    Between,
    /// At or beyond the escape radius.
    Far,
}

/// How a trace ended.
#[derive(Clone, Copy, Debug, PartialEq, Eq, Structural)]
pub enum Outcome {
    /// The ray crossed the event horizon.
    HorizonHit,
    /// The ray reached the escape radius.
    Escaped,
    /// The allowed steps were used up before the ray did either.
    Inconclusive,
    /// No ray with the pixel's impact parameter leaves the camera inwards.
    InvalidImpactParameter,
}

/// A finished trace.
#[derive(Clone, Copy, Debug, PartialEq, Eq, Structural)]
pub struct Run {
    /// How it ended.
    pub outcome: Outcome,
    /// The last state of the ray.
    pub state: RayState,
    /// The number of integration steps taken.
    pub steps: usize,
}

/// The region of the radius `r`. The horizon is looked at first, so a radius
/// that is at the horizon and beyond the escape radius counts as the horizon.
/// A NaN is in neither and counts as between them.
pub open spec fn region_of(r: Binary64, r_max: Binary64) -> Region {
    if r.spec_le(horizon()) {
        Region::Horizon
    } else if r.spec_ge(r_max) {
        Region::Far
    } else {
        Region::Between
    }
}

/// How a trace ends that has taken `steps` steps and stands in `region`:
/// once all steps are used up the state is not looked at any more.
pub open spec fn verdict(region: Region, steps: nat, max_steps: nat) -> Outcome {
    if steps >= max_steps {
        Outcome::Inconclusive
    } else {
        match region {
            Region::Horizon => Outcome::HorizonHit,
            Region::Far => Outcome::Escaped,
            Region::Between => Outcome::Inconclusive,
        }
    }
}

/// Every state of `path` but the last lies between the horizon and the escape
/// radius, and the next state is one that `step` can return for it.
pub open spec fn advances<F: Fn(RayState) -> RayState>(
    step: F,
    r_max: Binary64,
    path: Seq<RayState>,
) -> bool {
    forall|i: int|
        0 <= i < path.len() - 1 ==> region_of((#[trigger] path[i]).r, r_max) is Between
            && call_ensures(step, (path[i],), path[i + 1])
}

/// `path` is the full history of a trace from `start`, and `run` is its
/// summary: the trace went on while the ray was between the horizon and the
/// escape radius and steps were left, and it stopped at the first state that
/// was not, or when the steps were used up.
pub open spec fn recounts<F: Fn(RayState) -> RayState>(
    step: F,
    start: RayState,
    r_max: Binary64,
    max_steps: nat,
    path: Seq<RayState>,
    run: Run,
) -> bool {
    &&& path.len() == run.steps + 1
    &&& path[0] == start
    &&& path[run.steps as int] == run.state
    &&& advances(step, r_max, path)
    &&& run.steps <= max_steps
    &&& run.steps < max_steps ==> !(region_of(run.state.r, r_max) is Between)
    &&& run.outcome == verdict(region_of(run.state.r, r_max), run.steps as nat, max_steps)
}

/// `step` has one result for every state: a function, with no hidden input.
pub open spec fn single_valued<F: Fn(RayState) -> RayState>(step: F) -> bool {
    forall|s: RayState, a: RayState, b: RayState|
        call_ensures(step, (s,), a) && call_ensures(step, (s,), b) ==> a == b
}

/// Two histories from the same state agree wherever both are defined, if the
/// step function is single-valued.
proof fn lemma_paths_agree<F: Fn(RayState) -> RayState>(
    step: F,
    r_max: Binary64,
    path_a: Seq<RayState>,
    path_b: Seq<RayState>,
    n: int,
)
    requires
        single_valued(step),
        advances(step, r_max, path_a),
        advances(step, r_max, path_b),
        0 <= n < path_a.len(),
        n < path_b.len(),
        path_a[0] == path_b[0],
    ensures
        path_a[n] == path_b[n],
    decreases n,
{
    if n > 0 {
        lemma_paths_agree(step, r_max, path_a, path_b, n - 1);
        let before = path_a[n - 1];
        assert(call_ensures(step, (before,), path_a[n]));
        assert(path_b[n - 1] == before);
        assert(call_ensures(step, (before,), path_b[n]));
    }
}

/// Tracing is deterministic: with a single-valued step function, the same
/// start and the same limits leave room for one history and one summary only.
pub proof fn lemma_trace_is_deterministic<F: Fn(RayState) -> RayState>(
    step: F,
    start: RayState,
    r_max: Binary64,
    max_steps: nat,
    path_a: Seq<RayState>,
    run_a: Run,
    path_b: Seq<RayState>,
    run_b: Run,
)
    requires
        single_valued(step),
        recounts(step, start, r_max, max_steps, path_a, run_a),
        recounts(step, start, r_max, max_steps, path_b, run_b),
    ensures
        path_a == path_b,
        run_a == run_b,
{
    let na = run_a.steps as int;
    let nb = run_b.steps as int;
    if na < nb {
        lemma_paths_agree(step, r_max, path_a, path_b, na);
        assert(region_of(path_b[na].r, r_max) is Between);
        assert(false);
    }
    if nb < na {
        lemma_paths_agree(step, r_max, path_a, path_b, nb);
        assert(region_of(path_a[nb].r, r_max) is Between);
        assert(false);
    }
    assert forall|i: int| 0 <= i < path_a.len() implies path_a[i] == path_b[i] by {
        lemma_paths_agree(step, r_max, path_a, path_b, i);
    }
    assert(path_a =~= path_b);
}

/// What an outcome says about the summary of a trace: a ray that hit the
/// horizon ended at or inside it, a ray that escaped ended outside it and at
/// or beyond the escape radius, both with steps to spare; an inconclusive
/// trace used up its steps; and no trace ends without a ray.
pub proof fn lemma_outcome_meaning<F: Fn(RayState) -> RayState>(
    step: F,
    start: RayState,
    r_max: Binary64,
    max_steps: nat,
    path: Seq<RayState>,
    run: Run,
)
    requires
        recounts(step, start, r_max, max_steps, path, run),
    ensures
        run.outcome is HorizonHit <==> run.steps < max_steps && run.state.r.spec_le(horizon()),
        run.outcome is Escaped <==> run.steps < max_steps && !run.state.r.spec_le(horizon())
            && run.state.r.spec_ge(r_max),
        run.outcome is Inconclusive <==> run.steps == max_steps,
        !(run.outcome is InvalidImpactParameter),
        forall|i: int|
            0 <= i < run.steps ==> !(#[trigger] path[i]).r.spec_le(horizon()) && !path[i].r.spec_ge(
                r_max,
            ),
{
    assert forall|i: int| 0 <= i < run.steps implies !(#[trigger] path[i]).r.spec_le(horizon())
        && !path[i].r.spec_ge(r_max) by {
        assert(region_of(path[i].r, r_max) is Between);
    }
}

/// The region of the radius `r`.
pub fn locate(r: Binary64, r_max: Binary64) -> (region: Region)
    ensures
        region == region_of(r, r_max),
{
    if r.le(Binary64::from_bits(HORIZON_BITS)) {
        Region::Horizon
    } else if r.ge(r_max) {
        Region::Far
    } else {
        Region::Between
    }
}

/// Follows a ray from `start`, advancing it with `step`, until it reaches the
/// horizon or the escape radius or the allowed steps are used up. The state is
/// looked at before every step, and `step` is only ever called on a state
/// between the horizon and the escape radius.
pub fn trace<F: Fn(RayState) -> RayState>(cfg: &TraceConfig, start: RayState, step: F) -> (run: Run)
    requires
        forall|s: RayState|
            region_of(s.r, cfg@.r_max) is Between ==> call_requires(step, (s,)),
    ensures
        exists|path: Seq<RayState>|
            recounts(step, start, cfg@.r_max, cfg@.max_steps, path, run),
{
    let r_max: Binary64 = cfg.r_max();
    let max_steps: usize = cfg.max_steps();
    let mut state: RayState = start;
    let mut steps: usize = 0;
    let ghost mut path: Seq<RayState> = seq![start];
    while steps < max_steps
        invariant
            r_max == cfg@.r_max,
            max_steps == cfg@.max_steps,
            steps <= max_steps,
            path.len() == steps + 1,
            path[0] == start,
            path[steps as int] == state,
            advances(step, r_max, path),
            forall|s: RayState| region_of(s.r, r_max) is Between ==> call_requires(step, (s,)),
        decreases max_steps - steps,
    {
        match locate(state.r, r_max) {
            Region::Horizon => {
                let run = Run { outcome: Outcome::HorizonHit, state, steps };
                assert(recounts(step, start, r_max, max_steps as nat, path, run));
                return run;
            },
            Region::Far => {
                let run = Run { outcome: Outcome::Escaped, state, steps };
                assert(recounts(step, start, r_max, max_steps as nat, path, run));
                return run;
            },
            Region::Between => {
                let next: RayState = step(state);
                proof {
                    let longer = path.push(next);
                    assert forall|i: int| 0 <= i < longer.len() - 1 implies region_of(
                        (#[trigger] longer[i]).r,
                        r_max,
                    ) is Between && call_ensures(step, (longer[i],), longer[i + 1]) by {
                        if i < path.len() - 1 {
                            assert(longer[i] == path[i]);
                            assert(longer[i + 1] == path[i + 1]);
                        }
                    }
                    path = longer;
                }
                state = next;
                steps = steps + 1;
            },
        }
    }
    let run = Run { outcome: Outcome::Inconclusive, state, steps };
    assert(recounts(step, start, r_max, max_steps as nat, path, run));
    run
}

} // verus!

//! The integrator's control schedules.
//!
//! A simulation run touches the bodies in a fixed order: every unordered pair
//! of bodies exchanges one velocity kick per step, and each body's position is
//! advanced once per step, only after all of its kicks for that step have been
//! applied. These functions compute those orders and the run-level
//! orchestration, with contracts that pin the exact sequences down.

use vstd::prelude::*;

verus! {

/// The number of simulated bodies: the sun and the four outer planets. The
/// body count is a domain constant, never a runtime parameter.
pub const N_BODIES: usize = 5;

/// One unit of work inside a single integration step.
#[derive(Clone, Copy, PartialEq, Eq, Structural, Debug)]
pub enum Action {
    /// Apply the pairwise gravitational velocity update between bodies
    /// `i` and `j`, with `i < j`: both members of the pair in one visit.
    Kick { i: usize, j: usize },
    /// Advance body `i`'s position by its fully updated velocity.
    Drift { i: usize },
}

/// One phase of a whole run.
#[derive(Clone, Copy, PartialEq, Eq, Structural, Debug)]
pub enum Phase {
    /// Replace the reference body's velocity so total momentum is zero.
    Normalize,
    /// Observe (report) the system's total energy.
    Report,
    /// Advance the system by one time step.
    Step,
}

/// The unordered body pairs, each exactly once, in the order the integrator
/// visits them: ascending in the first index, then in the second.
pub open spec fn pair_plan() -> Seq<(usize, usize)> {
    seq![
        (0usize, 1usize), (0usize, 2usize), (0usize, 3usize), (0usize, 4usize),
        (1usize, 2usize), (1usize, 3usize), (1usize, 4usize),
        (2usize, 3usize), (2usize, 4usize),
        (3usize, 4usize),
    ]
}

/// The work of one integration step, in order: for each body `i` in turn, the
/// kicks against every later body, then `i`'s drift; the last body, which has
/// no later partner, drifts once at the very end.
pub open spec fn advance_plan() -> Seq<Action> {
    seq![
        Action::Kick { i: 0usize, j: 1usize },
        Action::Kick { i: 0usize, j: 2usize },
        Action::Kick { i: 0usize, j: 3usize },
        Action::Kick { i: 0usize, j: 4usize },
        Action::Drift { i: 0usize },
        Action::Kick { i: 1usize, j: 2usize },
        Action::Kick { i: 1usize, j: 3usize },
        Action::Kick { i: 1usize, j: 4usize },
        Action::Drift { i: 1usize },
        Action::Kick { i: 2usize, j: 3usize },
        Action::Kick { i: 2usize, j: 4usize },
        Action::Drift { i: 2usize },
        Action::Kick { i: 3usize, j: 4usize },
        Action::Drift { i: 3usize },
        Action::Drift { i: 4usize },
    ]
}

/// The phases of a whole run with `steps` integration steps: normalize
/// momentum, observe energy, advance `steps` times, observe energy again.
pub open spec fn run_plan(steps: nat) -> Seq<Phase> {
    seq![Phase::Normalize, Phase::Report] + Seq::new(steps, |k: int| Phase::Step)
        + seq![Phase::Report]
}

/// The number of actions contributed by rows `0..i` of the advance plan: row
/// `t` holds `N_BODIES - 1 - t` kicks and one drift.
pub open spec fn row_start(i: int) -> int {
    if i <= 0 {
        0
    } else if i == 1 {
        5
    } else if i == 2 {
        9
    } else if i == 3 {
        12
    } else {
        14
    }
}

/// The position of the kick between bodies `i` and `j` (with `i < j`) in the
/// advance plan.
pub open spec fn kick_index(i: int, j: int) -> int {
    row_start(i) + (j - i - 1)
}

/// The position of body `b`'s drift in the advance plan: the end of row `b`.
pub open spec fn drift_index(b: int) -> int {
    row_start(b) + (N_BODIES - 1 - b)
}

/// Every unordered pair of distinct bodies is kicked at its scheduled
/// position, and the plan's entries are pairwise distinct, so no pair is
/// processed more than once per step and no body interacts with itself.
pub proof fn lemma_each_pair_kicked_once()
    ensures
        forall|i: int, j: int|
            0 <= i < j < N_BODIES ==> 0 <= #[trigger] kick_index(i, j) < advance_plan().len()
                && advance_plan()[kick_index(i, j)] == (Action::Kick {
                i: i as usize,
                j: j as usize,
            }),
        forall|k1: int, k2: int|
            0 <= k1 < k2 < advance_plan().len() ==> advance_plan()[k1] != advance_plan()[k2],
{
}

/// Every body's position is advanced exactly once per step, at its scheduled
/// position in the plan.
pub proof fn lemma_each_body_drifts_once()
    ensures
        forall|b: int|
            0 <= b < N_BODIES ==> 0 <= #[trigger] drift_index(b) < advance_plan().len()
                && advance_plan()[drift_index(b)] == (Action::Drift { i: b as usize }),
        forall|k1: int, k2: int|
            0 <= k1 < k2 < advance_plan().len() ==> advance_plan()[k1] != advance_plan()[k2],
{
}

/// The synchronized-update discipline: every kick that touches a body stands
/// before that body's drift, so each velocity update is computed from the
/// positions as of the start of the step, never from a half-advanced state.
pub proof fn lemma_kicks_precede_drifts()
    ensures
        forall|i: int, j: int, b: int|
            0 <= i < j < N_BODIES && 0 <= b < N_BODIES && (i == b || j == b)
                ==> #[trigger] kick_index(i, j) < #[trigger] drift_index(b),
{
}

/// The unordered interaction pairs, in visiting order. Both the per-step
/// velocity updates and the potential-energy sum walk exactly these pairs, so
/// that no pair is counted twice and no body interacts with itself.
pub fn interaction_pairs() -> (r: Vec<(usize, usize)>)
    ensures
        r@ == pair_plan(),
{
    let mut r: Vec<(usize, usize)> = Vec::new();
    let mut i: usize = 0;
    while i < N_BODIES - 1
        invariant
            i <= N_BODIES - 1,
            r@.len() == row_start(i as int) - i,
            forall|k: int| 0 <= k < r@.len() ==> r@[k] == pair_plan()[k],
        decreases N_BODIES - 1 - i,
    {
        let mut j: usize = i + 1;
        while j < N_BODIES
            invariant
                i < N_BODIES,
                i + 1 <= j <= N_BODIES,
                r@.len() == row_start(i as int) - i + (j - i - 1),
                forall|k: int| 0 <= k < r@.len() ==> r@[k] == pair_plan()[k],
            decreases N_BODIES - j,
        {
            r.push((i, j));
            j = j + 1;
        }
        i = i + 1;
    }
    assert(r@ =~= pair_plan());
    r
}

/// The actions of one integration step, in the order they must be applied.
pub fn advance_schedule() -> (r: Vec<Action>)
    ensures
        r@ == advance_plan(),
{
    let mut r: Vec<Action> = Vec::new();
    let mut i: usize = 0;
    while i < N_BODIES - 1
        invariant
            i <= N_BODIES - 1,
            r@.len() == row_start(i as int),
            forall|k: int| 0 <= k < r@.len() ==> r@[k] == advance_plan()[k],
        decreases N_BODIES - 1 - i,
    {
        let mut j: usize = i + 1;
        while j < N_BODIES
            invariant
                i < N_BODIES - 1,
                i + 1 <= j <= N_BODIES,
                r@.len() == row_start(i as int) + (j - i - 1),
                forall|k: int| 0 <= k < r@.len() ==> r@[k] == advance_plan()[k],
            decreases N_BODIES - j,
        {
            r.push(Action::Kick { i, j });
            j = j + 1;
        }
        r.push(Action::Drift { i });
        i = i + 1;
    }
    r.push(Action::Drift { i: N_BODIES - 1 });
    assert(r@ =~= advance_plan());
    r
}

/// The position of the pair `(i, j)` (with `i < j`) in the pair plan.
pub open spec fn pair_index(i: int, j: int) -> int {
    row_start(i) - i + (j - i - 1)
}

/// The pair plan visits every unordered pair of distinct bodies exactly once
/// and visits nothing else: each entry is some `(i, j)` with `i < j`, each
/// such pair stands at its scheduled position, and no entry repeats.
pub proof fn lemma_pair_plan_complete()
    ensures
        forall|i: int, j: int|
            0 <= i < j < N_BODIES ==> 0 <= #[trigger] pair_index(i, j) < pair_plan().len()
                && pair_plan()[pair_index(i, j)] == (i as usize, j as usize),
        forall|k: int|
            0 <= k < pair_plan().len() ==> (#[trigger] pair_plan()[k]).0 < pair_plan()[k].1
                < N_BODIES,
        forall|k1: int, k2: int|
            0 <= k1 < k2 < pair_plan().len() ==> pair_plan()[k1] != pair_plan()[k2],
{
}

/// The shape of a run: it opens with momentum normalization, observes energy
/// once before and once after the advancing, and between the two observations
/// stand exactly `steps` advance steps and nothing else.
pub proof fn lemma_run_plan_shape(steps: nat)
    ensures
        run_plan(steps).len() == steps + 3,
        run_plan(steps)[0] == Phase::Normalize,
        run_plan(steps)[1] == Phase::Report,
        run_plan(steps)[steps as int + 2] == Phase::Report,
        forall|k: int| 2 <= k < steps + 2 ==> run_plan(steps)[k] == Phase::Step,
{
}

/// Zero-step idempotence: with a step count of zero the schedule holds no
/// advance step at all, and the two energy observations stand back to back,
/// observing one and the same state.
pub proof fn lemma_zero_steps_unchanged()
    ensures
        run_plan(0) =~= seq![Phase::Normalize, Phase::Report, Phase::Report],
        forall|k: int| 0 <= k < run_plan(0).len() ==> run_plan(0)[k] != Phase::Step,
{
}

/// Determinism: the schedule is a function of the step count alone — there is
/// no hidden state, randomness or environment input — so repeated runs with
/// equal step counts follow identical schedules.
pub proof fn lemma_run_plan_deterministic(a: nat, b: nat)
    requires
        a == b,
    ensures
        run_plan(a) == run_plan(b),
{
}

/// The phases of a whole run with `steps` integration steps.
pub fn run_schedule(steps: usize) -> (r: Vec<Phase>)
    ensures
        r@ == run_plan(steps as nat),
{
    let mut r: Vec<Phase> = Vec::new();
    r.push(Phase::Normalize);
    r.push(Phase::Report);
    let mut k: usize = 0;
    while k < steps
        invariant
            k <= steps,
            r@ =~= seq![Phase::Normalize, Phase::Report] + Seq::new(
                k as nat,
                |t: int| Phase::Step,
            ),
        decreases steps - k,
    {
        r.push(Phase::Step);
        k = k + 1;
    }
    r.push(Phase::Report);
    assert(r@ =~= run_plan(steps as nat));
    r
}

/// The number of steps a caller-supplied count stands for: a negative count
/// performs zero iterations, per standard iteration-count semantics.
pub fn step_count(n: i32) -> (r: usize)
    ensures
        n <= 0 ==> r == 0,
        n > 0 ==> r == n as int,
{
    if n <= 0 {
        0
    } else {
        n as usize
    }
}

} // verus!

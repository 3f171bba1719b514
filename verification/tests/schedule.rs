use nbody::schedule::{advance_schedule, interaction_pairs, run_schedule, step_count, Action, Phase};

#[test]
fn interaction_pairs_visits_each_unordered_pair_once() {
    let pairs = interaction_pairs();
    assert_eq!(
        pairs,
        vec![
            (0, 1),
            (0, 2),
            (0, 3),
            (0, 4),
            (1, 2),
            (1, 3),
            (1, 4),
            (2, 3),
            (2, 4),
            (3, 4),
        ]
    );
    // No pair repeats, no body is paired with itself, and i < j throughout.
    for a in 0usize..pairs.len() {
        let (i, j) = pairs[a];
        assert!(i < j && j < 5);
        for b in 0usize..a {
            assert_ne!(pairs[a], pairs[b]);
        }
    }
}

#[test]
fn advance_schedule_orders_kicks_and_drifts() {
    let plan = advance_schedule();
    assert_eq!(
        plan,
        vec![
            Action::Kick { i: 0, j: 1 },
            Action::Kick { i: 0, j: 2 },
            Action::Kick { i: 0, j: 3 },
            Action::Kick { i: 0, j: 4 },
            Action::Drift { i: 0 },
            Action::Kick { i: 1, j: 2 },
            Action::Kick { i: 1, j: 3 },
            Action::Kick { i: 1, j: 4 },
            Action::Drift { i: 1 },
            Action::Kick { i: 2, j: 3 },
            Action::Kick { i: 2, j: 4 },
            Action::Drift { i: 2 },
            Action::Kick { i: 3, j: 4 },
            Action::Drift { i: 3 },
            Action::Drift { i: 4 },
        ]
    );
}

#[test]
fn advance_schedule_kicks_precede_drifts() {
    let plan = advance_schedule();
    for a in 0usize..plan.len() {
        if let Action::Kick { i, j } = plan[a] {
            for b in 0usize..a {
                // No drift of either pair member may come before the kick.
                assert_ne!(plan[b], Action::Drift { i });
                assert_ne!(plan[b], Action::Drift { i: j });
            }
        }
    }
}

#[test]
fn run_schedule_orders_the_phases() {
    assert_eq!(
        run_schedule(3),
        vec![
            Phase::Normalize,
            Phase::Report,
            Phase::Step,
            Phase::Step,
            Phase::Step,
            Phase::Report,
        ]
    );
}

#[test]
fn run_schedule_zero_steps_reports_twice_back_to_back() {
    assert_eq!(
        run_schedule(0),
        vec![Phase::Normalize, Phase::Report, Phase::Report]
    );
}

#[test]
fn run_schedule_is_deterministic() {
    assert_eq!(run_schedule(100), run_schedule(100));
    assert_eq!(advance_schedule(), advance_schedule());
    assert_eq!(interaction_pairs(), interaction_pairs());
}

#[test]
fn step_count_clamps_negative_counts_to_zero() {
    assert_eq!(step_count(-1), 0);
    assert_eq!(step_count(-1000), 0);
    assert_eq!(step_count(0), 0);
    assert_eq!(step_count(1), 1);
    assert_eq!(step_count(1000), 1000);
}

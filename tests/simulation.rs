use rand::rngs::StdRng;
use rand::SeedableRng;
use run_expectancy::{
    build_distribution, estimate, hit_of_index, merge_tables, one_batting, run_all,
    BaseSituation, HitResult, Player, SimError,
};

fn ohtani() -> Player {
    Player::new(511, 150, 29, 6, 41, 69, 8, 780, 130).unwrap()
}

#[test]
fn weights_from_season_counts() {
    let w = ohtani().stat();
    // 231 balls in play, 101 of them on the ground at a ratio of 0.78
    assert_eq!(w, [130, 101, 130, 69, 8, 74, 29, 6, 41]);
    assert_eq!(w.iter().sum::<u64>(), 511 + 69 + 8);
}

#[test]
fn ground_outs_round_half_up() {
    // 3 balls in play at ratio 1: 1.5 ground outs rounds to 2
    let w = Player::new(3, 0, 0, 0, 0, 0, 0, 1000, 0).unwrap().stat();
    assert_eq!(w[0], 1);
    assert_eq!(w[1], 2);
}

#[test]
fn inconsistent_counts_are_refused() {
    assert_eq!(
        Player::new(100, 10, 5, 5, 5, 0, 0, 1000, 0).unwrap_err(),
        SimError::InvalidStatistics
    );
    assert_eq!(
        Player::new(100, 60, 0, 0, 0, 0, 0, 1000, 50).unwrap_err(),
        SimError::InvalidStatistics
    );
}

#[test]
fn all_zero_weights_are_refused() {
    assert!(matches!(build_distribution(&[0; 9]), Err(SimError::InvalidWeights)));
    let nobody = Player::new(0, 0, 0, 0, 0, 0, 0, 0, 0).unwrap();
    let mut rng = StdRng::seed_from_u64(1);
    assert!(matches!(run_all(&nobody, 10, &mut rng), Err(SimError::InvalidWeights)));
}

#[test]
fn zero_trials_are_refused() {
    let dist = build_distribution(&[1; 9]).unwrap();
    let mut rng = StdRng::seed_from_u64(1);
    assert!(matches!(
        estimate(&dist, &BaseSituation::new(), 0, &mut rng),
        Err(SimError::InvalidTrialCount)
    ));
    assert!(matches!(run_all(&ohtani(), 0, &mut rng), Err(SimError::InvalidTrialCount)));
}

#[test]
fn outcome_order() {
    assert_eq!(hit_of_index(0), HitResult::AO);
    assert_eq!(hit_of_index(2), HitResult::SO);
    assert_eq!(hit_of_index(4), HitResult::IBB);
    assert_eq!(hit_of_index(8), HitResult::HR);
}

#[test]
fn only_positive_weights_are_drawn() {
    // all weight on the triple
    let dist = build_distribution(&[0, 0, 0, 0, 0, 0, 0, 3, 0]).unwrap();
    let mut rng = StdRng::seed_from_u64(99);
    for _ in 0..50 {
        let (value, ended) = one_batting(&dist, &mut rng, true, false, false, 0);
        assert_eq!(value, 10000 + 13081 - 8577);
        assert!(!ended);
    }
}

#[test]
fn seeded_sampling_is_reproducible() {
    let dist = build_distribution(&ohtani().stat()).unwrap();
    let start = BaseSituation { one_base: true, two_base: false, three_base: true, out: 1 };
    let mut a = StdRng::seed_from_u64(2024);
    let mut b = StdRng::seed_from_u64(2024);
    let x = estimate(&dist, &start, 500, &mut a).unwrap();
    let y = estimate(&dist, &start, 500, &mut b).unwrap();
    assert_eq!(x.trials, 500);
    assert_eq!(x.sum, y.sum);
    assert_eq!(x.sum_sq, y.sum_sq);
    for _ in 0..100 {
        assert_eq!(
            one_batting(&dist, &mut a, false, true, false, 2),
            one_batting(&dist, &mut b, false, true, false, 2)
        );
    }
}

#[test]
fn home_runs_only_give_one_value() {
    let dist = build_distribution(&[0, 0, 0, 0, 0, 0, 0, 0, 5]).unwrap();
    let start = BaseSituation { one_base: true, two_base: true, three_base: true, out: 1 };
    let mut rng = StdRng::seed_from_u64(7);
    let a = estimate(&dist, &start, 10, &mut rng).unwrap();
    let v: i128 = 4 * 10000 + 2630 - 15383;
    assert_eq!(a.trials, 10);
    assert_eq!(a.sum, 10 * v);
    assert_eq!(a.sum_sq, 10 * v * v);
}

#[test]
fn strikeouts_only_with_two_outs() {
    let dist = build_distribution(&[0, 0, 1, 0, 0, 0, 0, 0, 0]).unwrap();
    let start = BaseSituation { one_base: false, two_base: true, three_base: true, out: 2 };
    let mut rng = StdRng::seed_from_u64(8);
    let a = estimate(&dist, &start, 4, &mut rng).unwrap();
    assert_eq!(a.sum, -4 * 5813);
    assert_eq!(a.sum_sq, 4 * 5813 * 5813);
}

#[test]
fn every_state_is_estimated() {
    let mut rng = StdRng::seed_from_u64(3);
    let table = run_all(&ohtani(), 20, &mut rng).unwrap();
    assert_eq!(table.len(), 24);
    for cell in &table {
        assert_eq!(cell.trials, 20);
        assert!(cell.sum.abs() <= 20 * 62618);
    }
}

#[test]
fn tables_merge_cell_by_cell() {
    let mut rng = StdRng::seed_from_u64(4);
    let a = run_all(&ohtani(), 5, &mut rng).unwrap();
    let b = run_all(&ohtani(), 7, &mut rng).unwrap();
    let m = merge_tables(&a, &b);
    assert_eq!(m.len(), 24);
    for i in 0..24 {
        assert_eq!(m[i].trials, 12);
        assert_eq!(m[i].sum, a[i].sum + b[i].sum);
        assert_eq!(m[i].sum_sq, a[i].sum_sq + b[i].sum_sq);
    }
}

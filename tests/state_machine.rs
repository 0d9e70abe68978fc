use run_expectancy::{expected_runs, BaseSituation, HitResult};

fn situation(one_base: bool, two_base: bool, three_base: bool, out: i32) -> BaseSituation {
    BaseSituation { one_base, two_base, three_base, out }
}

#[test]
fn table_corners() {
    assert_eq!(expected_runs(0, 0), 4886);
    assert_eq!(expected_runs(0, 2), 1008);
    assert_eq!(expected_runs(5, 1), 11462);
    assert_eq!(expected_runs(7, 0), 22618);
    assert_eq!(expected_runs(7, 2), 7018);
}

#[test]
fn row_column_of_state() {
    assert_eq!(situation(true, false, true, 1).calc_row_column(), (5, 1));
    assert_eq!(situation(false, true, false, 2).calc_row_column(), (2, 2));
    assert_eq!(BaseSituation::new().calc_row_column(), (0, 0));
}

#[test]
fn home_run_with_bases_loaded() {
    let mut s = situation(true, true, true, 0);
    let (value, ended) = s.update(&HitResult::HR);
    // four runs, then empty bases with no out
    assert_eq!(value, 4 * 10000 + 4886 - 22618);
    assert!(!ended);
    assert_eq!(s, situation(false, false, false, 0));
}

#[test]
fn ground_out_and_strikeout_keep_bases() {
    for h in [HitResult::GO, HitResult::SO] {
        let mut s = situation(true, false, true, 0);
        let (value, ended) = s.update(&h);
        assert_eq!(s, situation(true, false, true, 1));
        assert_eq!(value, 11462 - 16772);
        assert!(!ended);
    }
}

#[test]
fn third_out_resets_state() {
    for h in [HitResult::AO, HitResult::GO, HitResult::SO] {
        let mut s = situation(true, true, false, 2);
        let (value, ended) = s.update(&h);
        assert!(ended);
        assert_eq!(s, situation(false, false, false, 0));
        assert_eq!(value, -4392);
    }
}

#[test]
fn walk_with_bases_loaded_forces_in_a_run() {
    for h in [HitResult::BB, HitResult::IBB] {
        let mut s = situation(true, true, true, 1);
        let (value, ended) = s.update(&h);
        assert_eq!(value, 10000);
        assert!(!ended);
        assert_eq!(s, situation(true, true, true, 1));
    }
}

#[test]
fn walk_from_empty_bases_puts_batter_on_first() {
    let mut s = situation(false, false, false, 0);
    let (value, _) = s.update(&HitResult::BB);
    assert_eq!(s, situation(true, false, false, 0));
    assert_eq!(value, 8577 - 4886);
}

#[test]
fn walk_moves_only_forced_runners() {
    let mut s = situation(true, false, true, 0);
    s.update(&HitResult::BB);
    assert_eq!(s, situation(true, true, true, 0));
    let mut s = situation(false, true, false, 0);
    s.update(&HitResult::IBB);
    assert_eq!(s, situation(true, true, false, 0));
}

#[test]
fn single_with_runner_on_second() {
    let mut s = situation(false, true, false, 0);
    let (value, ended) = s.update(&HitResult::OneBase);
    assert!(!ended);
    assert_eq!(s, situation(true, false, true, 0));
    // no run: from "_ 2 _" to "1 _ 3"
    assert_eq!(value, 16772 - 10732);
}

#[test]
fn air_out_advances_runners() {
    let mut s = situation(true, true, true, 0);
    let (value, ended) = s.update(&HitResult::AO);
    assert!(!ended);
    assert_eq!(s, situation(false, true, true, 1));
    assert_eq!(value, 10000 + 12898 - 22618);
}

#[test]
fn double_scores_second_and_third() {
    let mut s = situation(true, true, true, 1);
    let (value, _) = s.update(&HitResult::TwoBase);
    assert_eq!(s, situation(false, true, true, 1));
    assert_eq!(value, 2 * 10000 + 12898 - 15383);
}

#[test]
fn triple_clears_the_bases_but_third() {
    let mut s = situation(true, false, true, 2);
    let (value, _) = s.update(&HitResult::ThreeBase);
    assert_eq!(s, situation(false, false, true, 2));
    assert_eq!(value, 2 * 10000 + 3634 - 4839);
}

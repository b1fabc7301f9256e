use fly_strike::config::Score;
use fly_strike::score_plug::{decimal_string, on_scored, points_for_hit, score_update_system, SCORE_WINDOW_MILLIS};
use fly_strike::score_pnl::setup;

#[test]
fn decimal_writing() {
    assert_eq!(decimal_string(0), "0");
    assert_eq!(decimal_string(7), "7");
    assert_eq!(decimal_string(10), "10");
    assert_eq!(decimal_string(305), "305");
    assert_eq!(decimal_string(u32::MAX), u32::MAX.to_string());
}

#[test]
fn late_hits_score_one_point() {
    let mut score = Score(0);
    assert_eq!(on_scored(&mut score, SCORE_WINDOW_MILLIS), "1");
    assert_eq!(on_scored(&mut score, SCORE_WINDOW_MILLIS + 90_000), "2");
    assert_eq!(score.0, 2);
    assert_eq!(score_update_system(&score), "2");
    let mut score = Score(99);
    assert_eq!(on_scored(&mut score, u64::MAX), "100");
}

#[test]
fn faster_hits_score_more() {
    assert_eq!(points_for_hit(0), 400_000_001);
    assert_eq!(points_for_hit(1_500), 399_998_501);
    assert_eq!(points_for_hit(60_000), 399_940_001);
    assert_eq!(points_for_hit(61_000), 399_939_001);
    assert_eq!(points_for_hit(399_999_999), 2);
    assert_eq!(points_for_hit(400_000_000), 1);
    let mut fast = Score(10);
    let mut slow = Score(10);
    on_scored(&mut fast, 2_000);
    on_scored(&mut slow, 2_001);
    assert!(fast.0 > slow.0);
    assert_eq!(fast.0, 10 + 399_998_001);
}

#[test]
fn nine_instant_hits_fit_the_score() {
    let mut score = Score(0);
    for _ in 0..9 {
        on_scored(&mut score, 0);
    }
    assert_eq!(score.0, 9 * 400_000_001);
}

#[test]
fn score_panel_starts_at_zero() {
    let panel = setup();
    assert_eq!(panel.score.0, 0);
    assert_eq!(panel.label, "得分: 0");
    assert!(panel.absolute);
}

use shooter_core::score::{update_score, Score, KILL_AWARD, SCORE_WRAP};

fn shown(points: u32) -> String {
    String::from_utf8(update_score(&Score(points))).unwrap()
}

#[test]
fn score_starts_at_zero() {
    assert_eq!(Score::new().value(), 0);
    assert_eq!(Score::default().value(), 0);
}

#[test]
fn award_adds_one_hundred() {
    assert_eq!(KILL_AWARD, 100);
    let mut score = Score::new();
    score.award();
    assert_eq!(score.value(), 100);
    score.award();
    assert_eq!(score.value(), 200);
}

#[test]
fn award_reaches_the_highest_score() {
    let mut score = Score(u32::MAX - 100);
    score.award();
    assert_eq!(score.value(), u32::MAX);
}

#[test]
fn reset_gives_zero() {
    let mut score = Score(4700);
    score.reset();
    assert_eq!(score.value(), 0);
    score.reset();
    assert_eq!(score.value(), 0);
}

#[test]
fn score_text_is_five_digits() {
    assert_eq!(SCORE_WRAP, 10000);
    assert_eq!(shown(0), "00000");
    assert_eq!(shown(7), "00007");
    assert_eq!(shown(100), "00100");
    assert_eq!(shown(9999), "09999");
    assert_eq!(shown(4321), "04321");
}

#[test]
fn score_text_wraps_at_ten_thousand() {
    assert_eq!(shown(10000), "00000");
    assert_eq!(shown(12345), "02345");
    assert_eq!(shown(u32::MAX), "07295");
}

#[test]
fn score_text_agrees_with_padded_formatting() {
    for points in [0u32, 1, 99, 100, 1000, 5050, 9999, 10000, 10100, 123456789] {
        assert_eq!(shown(points), format!("{:0>5}", points % 10000));
    }
}

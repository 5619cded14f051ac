use spaced_review::memory::{Sm, DEFAULT_EASINESS, MIN_EASINESS, SECONDS_PER_DAY};

const T: i64 = 1_700_000_000;

fn state(n: u32, ef: u32, interval: u32) -> Sm {
    Sm { n, ef, interval, last_reviewed: T }
}

#[test]
fn new_record_has_defaults() {
    let s = Sm::new(T);
    assert_eq!(s, Sm { n: 0, ef: 250, interval: 1, last_reviewed: T });
    assert_eq!(s.ef, DEFAULT_EASINESS);
}

#[test]
fn default_record_has_defaults() {
    let s = Sm::default();
    assert_eq!((s.n, s.ef, s.interval), (0, 250, 1));
    assert!(s.last_reviewed > 0);
}

#[test]
fn grade_four_on_second_success() {
    let now = T + 2 * SECONDS_PER_DAY;
    let next = state(1, 250, 1).sm2(4, now);
    // grade 4 leaves the easiness factor as it was: 0.1 - 1 * (0.08 + 0.02) = 0
    assert_eq!(next, Sm { n: 2, ef: 250, interval: 6, last_reviewed: now });
    assert_eq!(next.next_review_time(), T + 8 * SECONDS_PER_DAY);
}

#[test]
fn grade_one_is_a_lapse() {
    let now = T + 2 * SECONDS_PER_DAY;
    let next = state(1, 250, 1).sm2(1, now);
    assert_eq!(next, Sm { n: 0, ef: 196, interval: 1, last_reviewed: now });
}

#[test]
fn easiness_change_for_each_grade() {
    let expected = [170u32, 196, 218, 236, 250, 260];
    for g in 0u8..=5 {
        assert_eq!(state(3, 250, 10).sm2(g, T).ef, expected[g as usize]);
    }
}

#[test]
fn easiness_never_below_floor() {
    for g in 0u8..=5 {
        let next = state(4, MIN_EASINESS, 3).sm2(g, T);
        assert!(next.ef >= MIN_EASINESS);
    }
    assert_eq!(state(4, 140, 3).sm2(0, T).ef, 130);
}

#[test]
fn failed_grades_reset_streak_and_interval() {
    for g in 0u8..3 {
        let next = state(7, 260, 40).sm2(g, T);
        assert_eq!(next.n, 0);
        assert_eq!(next.interval, 1);
    }
}

#[test]
fn first_success_waits_one_day() {
    for g in 3u8..=5 {
        let next = state(0, 180, 9).sm2(g, T);
        assert_eq!(next.n, 1);
        assert_eq!(next.interval, 1);
    }
}

#[test]
fn second_success_waits_six_days() {
    for g in 3u8..=5 {
        assert_eq!(state(1, 180, 1).sm2(g, T).interval, 6);
    }
}

#[test]
fn later_success_grows_interval_rounding_half_up() {
    assert_eq!(state(2, 250, 6).sm2(5, T).interval, 15);
    assert_eq!(state(2, 250, 7).sm2(5, T).interval, 18);
    assert_eq!(state(5, 130, 1).sm2(3, T).interval, 1);
    assert_eq!(state(5, 130, 3).sm2(3, T).interval, 4);
}

#[test]
fn grading_leaves_input_untouched() {
    let s = state(2, 250, 6);
    let _ = s.sm2(5, T);
    assert_eq!(s, state(2, 250, 6));
}

#[test]
fn due_exactly_at_interval_end() {
    let s = state(2, 250, 3);
    let due = T + 3 * SECONDS_PER_DAY;
    assert!(!s.is_due(due - 1));
    assert!(s.is_due(due));
    assert!(s.is_due(due + 1));
    assert_eq!(s.next_review_time(), due);
}

#[test]
fn due_stays_due_later() {
    let s = state(2, 250, 2);
    let t = T + 2 * SECONDS_PER_DAY;
    assert!(s.is_due(t));
    for k in 1..100i64 {
        assert!(s.is_due(t + k * 3_601));
    }
    assert!(s.is_due(i64::MAX));
}

#[test]
fn due_check_does_not_overflow() {
    let s = Sm { n: 0, ef: 250, interval: u32::MAX, last_reviewed: i64::MAX };
    assert!(!s.is_due(i64::MAX));
}

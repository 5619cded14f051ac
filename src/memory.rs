//! The per-item scheduling record and its update rule.
//!
//! The easiness factor is held in hundredths (`250` stands for 2.5), and
//! instants are whole seconds since the Unix epoch.

use vstd::prelude::*;

use crate::clock::now_seconds;

verus! {

/// Seconds in one day.
pub const SECONDS_PER_DAY: i64 = 86400;

/// The lowest easiness factor, in hundredths.
pub const MIN_EASINESS: u32 = 130;

/// The easiness factor of a new item, in hundredths.
pub const DEFAULT_EASINESS: u32 = 250;

/// The highest grade; grades run from 0 to this value inclusive.
pub const MAX_GRADE: u8 = 5;

/// The lowest grade that counts as a successful recall.
pub const PASS_GRADE: u8 = 3;

/// The scheduling record of one item.
#[derive(Clone, Copy, Debug, PartialEq, Eq, Structural)]
pub struct Sm {
    /// Successful recalls in a row since the last lapse.
    pub n: u32,
    /// How fast the interval grows, in hundredths.
    pub ef: u32,
    /// Days to wait after `last_reviewed` before the next review.
    pub interval: u32,
    /// When this record was produced, in seconds since the Unix epoch.
    pub last_reviewed: i64,
}

/// A record obeys the invariants of the scheduler.
pub open spec fn sm_wf(s: Sm) -> bool {
    s.ef >= MIN_EASINESS && s.interval >= 1
}

/// The record of an item that enters a deck at `now`.
pub open spec fn initial_state(now: int) -> Sm {
    Sm { n: 0, ef: DEFAULT_EASINESS, interval: 1, last_reviewed: now as i64 }
}

/// The instant at which a record becomes due.
pub open spec fn due_at(s: Sm) -> int {
    s.last_reviewed + s.interval * SECONDS_PER_DAY
}

/// A record is due at `now`.
pub open spec fn is_due_at(s: Sm, now: int) -> bool {
    now >= due_at(s)
}

/// The change of the easiness factor, in hundredths, for a grade:
/// `0.1 - (5 - g) * (0.08 + (5 - g) * 0.02)` scaled by one hundred.
pub open spec fn easiness_delta(grade: int) -> int {
    10 - (5 - grade) * (8 + (5 - grade) * 2)
}

/// The easiness factor after a grade: raised or lowered by the delta, never
/// below the minimum, and held at the largest `u32`.
pub open spec fn next_easiness(ef: int, grade: int) -> int {
    let e = ef + easiness_delta(grade);
    if e < MIN_EASINESS {
        MIN_EASINESS as int
    } else if e > u32::MAX {
        u32::MAX as int
    } else {
        e
    }
}

/// `interval * ef / 100` rounded half up, at least one, held at the largest `u32`.
pub open spec fn grown_interval(interval: int, ef: int) -> int {
    let r = (interval * ef + 50) / 100;
    if r < 1 {
        1
    } else if r > u32::MAX {
        u32::MAX as int
    } else {
        r
    }
}

/// The interval after a grade.
pub open spec fn next_interval(s: Sm, grade: int) -> int {
    if grade >= PASS_GRADE {
        if s.n == 0 {
            1
        } else if s.n == 1 {
            6
        } else {
            grown_interval(s.interval as int, s.ef as int)
        }
    } else {
        1
    }
}

/// The streak after a grade.
pub open spec fn next_streak(s: Sm, grade: int) -> int {
    if grade >= PASS_GRADE {
        if s.n < u32::MAX {
            s.n + 1
        } else {
            u32::MAX as int
        }
    } else {
        0
    }
}

/// The record that replaces `s` when the item is graded `grade` at `now`.
pub open spec fn next_state(s: Sm, grade: int, now: int) -> Sm {
    Sm {
        n: next_streak(s, grade) as u32,
        ef: next_easiness(s.ef as int, grade) as u32,
        interval: next_interval(s, grade) as u32,
        last_reviewed: now as i64,
    }
}

impl Sm {
    /// The record of an item that enters a deck at `now`.
    pub fn new(now: i64) -> (r: Sm)
        ensures
            r == initial_state(now as int),
            sm_wf(r),
    {
        Sm { n: 0, ef: DEFAULT_EASINESS, interval: 1, last_reviewed: now }
    }

    /// The instant at which this record becomes due.
    pub fn next_review_time(&self) -> (r: i64)
        requires
            due_at(*self) <= i64::MAX,
        ensures
            r == due_at(*self),
    {
        self.last_reviewed + (self.interval as i64) * SECONDS_PER_DAY
    }

    /// Whether this record is due at `now`.
    pub fn is_due(&self, now: i64) -> (r: bool)
        ensures
            r == is_due_at(*self, now as int),
    {
        let wait: i128 = (self.interval as i128) * 86400;
        (now as i128) >= (self.last_reviewed as i128) + wait
    }

    /// The record that replaces this one when the item is graded `grade` at `now`.
    pub fn sm2(&self, grade: u8, now: i64) -> (r: Sm)
        requires
            grade <= MAX_GRADE,
        ensures
            r == next_state(*self, grade as int, now as int),
            sm_wf(r),
    {
        let n: u32;
        let interval: u32;
        if grade >= PASS_GRADE {
            if self.n == 0 {
                interval = 1;
            } else if self.n == 1 {
                interval = 6;
            } else {
                interval = grow_interval(self.interval, self.ef);
            }
            n = if self.n == u32::MAX { u32::MAX } else { self.n + 1 };
        } else {
            interval = 1;
            n = 0;
        }
        let ef = adjust_easiness(self.ef, grade);
        Sm { n, ef, interval, last_reviewed: now }
    }
}

/// The easiness factor after a grade, in hundredths.
fn adjust_easiness(ef: u32, grade: u8) -> (r: u32)
    requires
        grade <= MAX_GRADE,
    ensures
        r == next_easiness(ef as int, grade as int),
{
    let miss: i64 = (MAX_GRADE - grade) as i64;
    assert(0 <= miss * (8 + miss * 2) <= 90) by (nonlinear_arith)
        requires
            0 <= miss <= 5,
    ;
    let delta: i64 = 10 - miss * (8 + miss * 2);
    let e: i64 = ef as i64 + delta;
    if e < MIN_EASINESS as i64 {
        MIN_EASINESS
    } else if e > u32::MAX as i64 {
        u32::MAX
    } else {
        e as u32
    }
}

/// `interval * ef / 100` rounded half up, at least one, held at the largest `u32`.
fn grow_interval(interval: u32, ef: u32) -> (r: u32)
    ensures
        r == grown_interval(interval as int, ef as int),
{
    assert((interval as int) * (ef as int) <= 0xffff_fffe_0000_0001) by (nonlinear_arith)
        requires
            interval <= u32::MAX,
            ef <= u32::MAX,
    ;
    let product: u64 = (interval as u64) * (ef as u64);
    let rounded: u64 = (product + 50) / 100;
    if rounded < 1 {
        1
    } else if rounded > u32::MAX as u64 {
        u32::MAX
    } else {
        rounded as u32
    }
}

impl Default for Sm {
    /// The record of an item that enters a deck now.
    fn default() -> (r: Sm)
        ensures
            exists|t: i64| r == initial_state(t as int),
    {
        Sm::new(now_seconds())
    }
}

/// Whatever the record and the valid grade, the new easiness factor is at
/// least the minimum of 1.3.
pub proof fn lemma_easiness_floor(s: Sm, grade: u8, now: i64)
    requires
        grade <= MAX_GRADE,
    ensures
        next_state(s, grade as int, now as int).ef >= MIN_EASINESS,
{
}

/// A failed recall resets the streak and schedules the item for the next day.
pub proof fn lemma_lapse_resets(s: Sm, grade: u8, now: i64)
    requires
        grade < PASS_GRADE,
    ensures
        next_state(s, grade as int, now as int).interval == 1,
        next_state(s, grade as int, now as int).n == 0,
{
}

/// The first successful recall after a lapse (or of a new item) waits one
/// day and starts a streak of one.
pub proof fn lemma_first_success(s: Sm, grade: u8, now: i64)
    requires
        s.n == 0,
        PASS_GRADE <= grade <= MAX_GRADE,
    ensures
        next_state(s, grade as int, now as int).interval == 1,
        next_state(s, grade as int, now as int).n == 1,
{
}

/// The second successful recall in a row waits six days.
pub proof fn lemma_second_success(s: Sm, grade: u8, now: i64)
    requires
        s.n == 1,
        PASS_GRADE <= grade <= MAX_GRADE,
    ensures
        next_state(s, grade as int, now as int).interval == 6,
{
}

/// Once a record is due it stays due at every later instant.
pub proof fn lemma_due_monotonic(s: Sm, t: i64, later: i64)
    requires
        is_due_at(s, t as int),
        t < later,
    ensures
        is_due_at(s, later as int),
{
}

} // verus!

//! When an operation of a known size may start.

use crate::calendar::{Date, TimeOfDay, UtcDateTime, SECONDS_PER_DAY};
use vstd::prelude::*;

verus! {

/// A daily window `[start, end)`; it runs past midnight when `end` comes
/// before `start`, and is empty when the two are equal.
#[derive(Clone, Copy, Debug, PartialEq, Eq, Structural)]
pub struct Interval {
    pub start: TimeOfDay,
    pub end: TimeOfDay,
}

impl Interval {
    pub open spec fn wf(&self) -> bool {
        self.start.wf() && self.end.wf()
    }
}

/// The seconds from `start` to the next `end`, across midnight when `end`
/// comes first in the day.
pub open spec fn span(start: int, end: int) -> int {
    if start <= end {
        end - start
    } else {
        end + SECONDS_PER_DAY - start
    }
}

/// The earliest start today within the interval, seen at time of day `now`.
pub open spec fn start_today(iv: Interval, now: int) -> Option<int> {
    if now > iv.start.secs() {
        if iv.end.secs() >= iv.start.secs() {
            if now < iv.end.secs() {
                Some(now)
            } else {
                None
            }
        } else {
            Some(now)
        }
    } else {
        Some(iv.start.secs())
    }
}

/// The interval leaves room today for `duration` seconds.
pub open spec fn fits_today(iv: Interval, now: int, duration: int) -> bool {
    match start_today(iv, now) {
        Some(s) => span(s, iv.end.secs()) >= duration,
        None => false,
    }
}

/// The first interval from index `i` on that fits today.
pub open spec fn first_fit_today(ivs: Seq<Interval>, now: int, duration: int, i: int) -> Option<
    int,
>
    decreases ivs.len() - i,
{
    if i < 0 || i >= ivs.len() {
        None
    } else if fits_today(ivs[i], now, duration) {
        Some(i)
    } else {
        first_fit_today(ivs, now, duration, i + 1)
    }
}

/// The first interval from index `i` on that is long enough as a whole.
pub open spec fn first_long_enough(ivs: Seq<Interval>, duration: int, i: int) -> Option<int>
    decreases ivs.len() - i,
{
    if i < 0 || i >= ivs.len() {
        None
    } else if span(ivs[i].start.secs(), ivs[i].end.secs()) >= duration {
        Some(i)
    } else {
        first_long_enough(ivs, duration, i + 1)
    }
}

/// The index of the first longest interval among the first `n`.
pub open spec fn longest_among(ivs: Seq<Interval>, n: int) -> int
    decreases n,
{
    if n <= 1 {
        0
    } else {
        let best = longest_among(ivs, n - 1);
        if span(ivs[n - 1].start.secs(), ivs[n - 1].end.secs()) > span(
            ivs[best].start.secs(),
            ivs[best].end.secs(),
        ) {
            n - 1
        } else {
            best
        }
    }
}

/// When an operation of `duration` seconds starts, seen at `now`: today in
/// the first interval that still fits it; else tomorrow in the first
/// interval long enough for it; else at the next start of the first longest
/// interval.
pub open spec fn scheduled_start(ivs: Seq<Interval>, now: UtcDateTime, duration: int) -> UtcDateTime {
    match first_fit_today(ivs, now.time.secs(), duration, 0) {
        Some(i) => UtcDateTime {
            date: now.date,
            time: TimeOfDay { seconds: start_today(ivs[i], now.time.secs()).unwrap() as u32 },
        },
        None => match first_long_enough(ivs, duration, 0) {
            Some(i) => UtcDateTime { date: now.date.spec_next_day(), time: ivs[i].start },
            None => {
                let i = longest_among(ivs, ivs.len() as int);
                UtcDateTime {
                    date: if ivs[i].start.secs() > now.time.secs() {
                        now.date
                    } else {
                        now.date.spec_next_day()
                    },
                    time: ivs[i].start,
                }
            },
        },
    }
}

/// The seconds needed for `bytes` at `speed` bytes per second, rounded up.
pub open spec fn transfer_seconds(bytes: int, speed: int) -> int {
    (bytes + speed - 1) / speed
}

pub open spec fn sorted_by_start(ivs: Seq<Interval>) -> bool {
    forall|i: int, j: int| 0 <= i < j < ivs.len() ==> ivs[i].start.secs() <= ivs[j].start.secs()
}

/// When an operation may start.
#[derive(Clone, Copy, Debug, PartialEq, Eq, Structural)]
pub enum StartTime {
    Now,
    Later(UtcDateTime),
}

/// Answers when an operation of a known size may start.
pub trait OperationScheduler {
    spec fn valid(&self) -> bool;

    spec fn start_time_spec(&self, now: UtcDateTime, bytes: u64) -> StartTime;

    /// The start of an operation that moves `bytes` bytes, seen at `now`.
    fn start_time(&self, now: UtcDateTime, bytes: u64) -> (r: StartTime)
        requires
            self.valid(),
            now.wf(),
            !now.date.is_last(),
        ensures
            r == self.start_time_spec(now, bytes),
    ;
}

/// Lets every operation start at once.
#[derive(Clone, Copy, Debug)]
pub struct AnyTime;

impl OperationScheduler for AnyTime {
    open spec fn valid(&self) -> bool {
        true
    }

    open spec fn start_time_spec(&self, now: UtcDateTime, bytes: u64) -> StartTime {
        StartTime::Now
    }

    fn start_time(&self, now: UtcDateTime, bytes: u64) -> (r: StartTime) {
        StartTime::Now
    }
}

/// Runs operations in daily intervals. When no interval can hold an
/// operation, it starts in the longest one and runs past its end.
#[derive(Clone, Debug)]
pub struct TimesOfDay {
    intervals: Vec<Interval>,
    upload_speed: u64,
}

impl TimesOfDay {
    pub closed spec fn intervals_view(&self) -> Seq<Interval> {
        self.intervals@
    }

    pub closed spec fn speed(&self) -> int {
        self.upload_speed as int
    }

    /// At least one interval, sorted by start, and a positive speed.
    pub open spec fn wf(&self) -> bool {
        &&& self.intervals_view().len() > 0
        &&& sorted_by_start(self.intervals_view())
        &&& forall|i: int| 0 <= i < self.intervals_view().len() ==> #[trigger] self.intervals_view()[i].wf()
        &&& self.speed() > 0
    }

    /// Intervals must not overlap. The speed is in bytes per second.
    pub fn new(intervals: Vec<Interval>, upload_speed: u64) -> (r: TimesOfDay)
        requires
            intervals@.len() > 0,
            upload_speed > 0,
            forall|i: int| 0 <= i < intervals@.len() ==> #[trigger] intervals@[i].wf(),
        ensures
            r.wf(),
            r.intervals_view().to_multiset() == intervals@.to_multiset(),
            r.speed() == upload_speed,
    {
        broadcast use vstd::seq_lib::group_to_multiset_ensures;

        let mut sorted: Vec<Interval> = Vec::new();
        let mut k: usize = 0;
        while k < intervals.len()
            invariant
                k <= intervals@.len(),
                sorted@.len() == k,
                sorted_by_start(sorted@),
                sorted@.to_multiset() == intervals@.subrange(0, k as int).to_multiset(),
                forall|i: int| 0 <= i < intervals@.len() ==> #[trigger] intervals@[i].wf(),
                forall|i: int| 0 <= i < sorted@.len() ==> #[trigger] sorted@[i].wf(),
            decreases intervals@.len() - k,
        {
            let x = intervals[k];
            let mut p: usize = 0;
            while p < sorted.len() && sorted[p].start.seconds <= x.start.seconds
                invariant
                    p <= sorted@.len(),
                    forall|i: int| 0 <= i < p ==> #[trigger] sorted@[i].start.secs()
                        <= x.start.secs(),
                decreases sorted@.len() - p,
            {
                p = p + 1;
            }
            proof {
                assert(intervals@.subrange(0, k + 1) == intervals@.subrange(0, k as int).push(x));
                vstd::seq_lib::to_multiset_insert(sorted@, p as int, x);
                vstd::seq_lib::to_multiset_build(intervals@.subrange(0, k as int), x);
            }
            let ghost before = sorted@;
            sorted.insert(p, x);
            assert forall|i: int, j: int| 0 <= i < j < sorted@.len() implies sorted@[i].start.secs()
                <= sorted@[j].start.secs() by {
                if j < p {
                } else if j == p {
                } else if i < p {
                    assert(sorted@[j] == before[j - 1]);
                    if p < before.len() {
                        assert(before[p as int].start.secs() > x.start.secs());
                    }
                } else if i == p {
                    assert(before[p as int].start.secs() > x.start.secs());
                    assert(sorted@[j] == before[j - 1]);
                } else {
                    assert(sorted@[i] == before[i - 1]);
                    assert(sorted@[j] == before[j - 1]);
                }
            }
            k = k + 1;
        }
        assert(intervals@.subrange(0, intervals@.len() as int) == intervals@);
        TimesOfDay { intervals: sorted, upload_speed }
    }

    /// The start of an operation of `duration` seconds, seen at `now`.
    pub fn get_start_time(&self, now: UtcDateTime, duration: u64) -> (r: UtcDateTime)
        requires
            self.wf(),
            now.wf(),
            !now.date.is_last(),
        ensures
            r == scheduled_start(self.intervals_view(), now, duration as int),
    {
        let ivs = &self.intervals;
        let t = now.time.seconds;
        // An interval that still fits the operation today.
        let mut i: usize = 0;
        while i < ivs.len()
            invariant
                i <= ivs@.len(),
                ivs@ == self.intervals_view(),
                t as int == now.time.secs(),
                now.time.wf(),
                forall|j: int| 0 <= j < ivs@.len() ==> #[trigger] ivs@[j].wf(),
                first_fit_today(ivs@, t as int, duration as int, 0) == first_fit_today(
                    ivs@,
                    t as int,
                    duration as int,
                    i as int,
                ),
            decreases ivs@.len() - i,
        {
            let iv = ivs[i];
            let start: Option<u32> = if t > iv.start.seconds {
                if iv.end.seconds >= iv.start.seconds {
                    if t < iv.end.seconds {
                        Some(t)
                    } else {
                        None
                    }
                } else {
                    Some(t)
                }
            } else {
                Some(iv.start.seconds)
            };
            assert(ivs@[i as int].wf());
            if let Some(s) = start {
                let available: u64 = if s <= iv.end.seconds {
                    (iv.end.seconds - s) as u64
                } else {
                    (iv.end.seconds + SECONDS_PER_DAY - s) as u64
                };
                if available >= duration {
                    return UtcDateTime { date: now.date, time: TimeOfDay { seconds: s } };
                }
            }
            i = i + 1;
        }
        assert(first_fit_today(ivs@, t as int, duration as int, ivs@.len() as int) is None);
        // An interval long enough as a whole: tomorrow at its start.
        let tomorrow = now.date.next_day().unwrap();
        let mut i: usize = 0;
        while i < ivs.len()
            invariant
                i <= ivs@.len(),
                ivs@ == self.intervals_view(),
                forall|j: int| 0 <= j < ivs@.len() ==> #[trigger] ivs@[j].wf(),
                first_long_enough(ivs@, duration as int, 0) == first_long_enough(
                    ivs@,
                    duration as int,
                    i as int,
                ),
                first_fit_today(ivs@, now.time.secs(), duration as int, 0) is None,
                tomorrow == now.date.spec_next_day(),
            decreases ivs@.len() - i,
        {
            let iv = ivs[i];
            assert(ivs@[i as int].wf());
            let length: u64 = if iv.start.seconds <= iv.end.seconds {
                (iv.end.seconds - iv.start.seconds) as u64
            } else {
                (iv.end.seconds + SECONDS_PER_DAY - iv.start.seconds) as u64
            };
            if length >= duration {
                return UtcDateTime { date: tomorrow, time: iv.start };
            }
            i = i + 1;
        }
        assert(first_long_enough(ivs@, duration as int, ivs@.len() as int) is None);
        // Neither: the first longest interval, at its next start.
        let mut best: usize = 0;
        let mut best_length: u32 = 0;
        let mut i: usize = 0;
        while i < ivs.len()
            invariant
                1 <= ivs@.len(),
                i <= ivs@.len(),
                ivs@ == self.intervals_view(),
                forall|j: int| 0 <= j < ivs@.len() ==> #[trigger] ivs@[j].wf(),
                i == 0 ==> best == 0 && best_length == 0,
                i > 0 ==> best == longest_among(ivs@, i as int),
                i > 0 ==> best_length == span(
                    ivs@[best as int].start.secs(),
                    ivs@[best as int].end.secs(),
                ),
                best < ivs@.len(),
                first_fit_today(ivs@, now.time.secs(), duration as int, 0) is None,
                first_long_enough(ivs@, duration as int, 0) is None,
                tomorrow == now.date.spec_next_day(),
                t as int == now.time.secs(),
            decreases ivs@.len() - i,
        {
            let iv = ivs[i];
            assert(ivs@[i as int].wf());
            let length: u32 = if iv.start.seconds <= iv.end.seconds {
                iv.end.seconds - iv.start.seconds
            } else {
                iv.end.seconds + SECONDS_PER_DAY - iv.start.seconds
            };
            if i == 0 || length > best_length {
                best = i;
                best_length = length;
            }
            i = i + 1;
        }
        let start = ivs[best].start;
        let date = if start.seconds > t {
            now.date
        } else {
            tomorrow
        };
        UtcDateTime { date, time: start }
    }
}

impl OperationScheduler for TimesOfDay {
    open spec fn valid(&self) -> bool {
        self.wf()
    }

    open spec fn start_time_spec(&self, now: UtcDateTime, bytes: u64) -> StartTime {
        StartTime::Later(
            scheduled_start(self.intervals_view(), now, transfer_seconds(bytes as int, self.speed())),
        )
    }

    fn start_time(&self, now: UtcDateTime, bytes: u64) -> (r: StartTime) {
        let quotient: u64 = bytes / self.upload_speed;
        let duration: u64 = if bytes % self.upload_speed == 0 {
            quotient
        } else {
            proof {
                assert(quotient < u64::MAX) by (nonlinear_arith)
                    requires
                        quotient == bytes / self.upload_speed,
                        bytes % self.upload_speed != 0,
                        self.upload_speed > 0,
                ;
            }
            quotient + 1
        };
        proof {
            assert(duration == transfer_seconds(bytes as int, self.speed())) by (nonlinear_arith)
                requires
                    self.speed() > 0,
                    self.speed() == self.upload_speed,
                    quotient == bytes / self.upload_speed,
                    bytes % self.upload_speed == 0 ==> duration == quotient,
                    bytes % self.upload_speed != 0 ==> duration == quotient + 1,
            ;
        }
        StartTime::Later(self.get_start_time(now, duration))
    }
}

} // verus!

use crate::message::{OutboundReply, ReplyView};
use vstd::prelude::*;

verus! {

pub const DAY_NANOS: u64 = 86_400_000_000_000;

pub const WEEK_NANOS: u64 = 604_800_000_000_000;

/// The nanoseconds from the start of the week, Monday at midnight, to a
/// time of a day of the week. Days count from Monday, which is 1.
pub open spec fn week_position(weekday: int, hour: int, minute: int, second: int, nanosecond: int) -> int {
    (((weekday - 1) * 24 + hour) * 60 + minute) * 60 * 1_000_000_000 + second * 1_000_000_000
        + nanosecond
}

/// Whether the numbers name a time of a day of the week.
pub open spec fn names_a_time(weekday: int, hour: int, minute: int, second: int, nanosecond: int) -> bool {
    1 <= weekday <= 7 && 0 <= hour < 24 && 0 <= minute < 60 && 0 <= second < 60 && 0 <= nanosecond
        < 1_000_000_000
}

/// A day of the week and a time of day at which something recurs.
pub struct WeeklySchedule {
    weekday: u8,
    hour: u8,
    minute: u8,
    second: u8,
}

/// What a wall clock shows: the day of the week and the time of day.
pub struct WallClock {
    weekday: u8,
    hour: u8,
    minute: u8,
    second: u8,
    nanosecond: u32,
}

fn position_of(weekday: u8, hour: u8, minute: u8, second: u8, nanosecond: u32) -> (p: u64)
    requires
        names_a_time(weekday as int, hour as int, minute as int, second as int, nanosecond as int),
    ensures
        p == week_position(
            weekday as int,
            hour as int,
            minute as int,
            second as int,
            nanosecond as int,
        ),
        p < WEEK_NANOS,
{
    let minutes: u64 = ((weekday as u64 - 1) * 24 + hour as u64) * 60 + minute as u64;
    minutes * 60 * 1_000_000_000 + second as u64 * 1_000_000_000 + nanosecond as u64
}

impl WeeklySchedule {
    #[verifier::type_invariant]
    spec fn valid(self) -> bool {
        names_a_time(self.weekday as int, self.hour as int, self.minute as int, self.second as int, 0)
    }

    /// The nanoseconds from the start of the week to the scheduled time.
    pub closed spec fn position(self) -> int {
        week_position(self.weekday as int, self.hour as int, self.minute as int, self.second as int, 0)
    }

    /// The schedule for a day of the week, counted from Monday as 1, and a
    /// time of day; nothing where the numbers name no such time.
    pub fn new(weekday: u8, hour: u8, minute: u8, second: u8) -> (schedule: Option<WeeklySchedule>)
        ensures
            schedule is Some <==> names_a_time(
                weekday as int,
                hour as int,
                minute as int,
                second as int,
                0,
            ),
            schedule matches Some(s) ==> s.position() == week_position(
                weekday as int,
                hour as int,
                minute as int,
                second as int,
                0,
            ),
    {
        if 1 <= weekday && weekday <= 7 && hour < 24 && minute < 60 && second < 60 {
            Some(WeeklySchedule { weekday, hour, minute, second })
        } else {
            None
        }
    }

    /// The scheduled time within the week, in nanoseconds.
    pub fn offset(&self) -> (p: u64)
        ensures
            p == self.position(),
            p < WEEK_NANOS,
    {
        proof {
            use_type_invariant(self);
        }
        position_of(self.weekday, self.hour, self.minute, self.second, 0)
    }

    /// How long to sleep from `now` until the scheduled time comes next.
    pub fn time_to_sleep(&self, now: &WallClock) -> (nanos: u64)
        ensures
            nanos == wait(self.position(), now.position()),
            0 < nanos <= WEEK_NANOS,
    {
        let target = self.offset();
        let current = now.offset();
        if target > current {
            target - current
        } else {
            target + WEEK_NANOS - current
        }
    }
}

impl WallClock {
    #[verifier::type_invariant]
    spec fn valid(self) -> bool {
        names_a_time(
            self.weekday as int,
            self.hour as int,
            self.minute as int,
            self.second as int,
            self.nanosecond as int,
        )
    }

    /// The nanoseconds from the start of the week to the time shown.
    pub closed spec fn position(self) -> int {
        week_position(
            self.weekday as int,
            self.hour as int,
            self.minute as int,
            self.second as int,
            self.nanosecond as int,
        )
    }

    /// The clock that shows a day of the week, counted from Monday as 1,
    /// and a time of day; nothing where the numbers name no such time.
    pub fn new(weekday: u8, hour: u8, minute: u8, second: u8, nanosecond: u32) -> (clock: Option<
        WallClock,
    >)
        ensures
            clock is Some <==> names_a_time(
                weekday as int,
                hour as int,
                minute as int,
                second as int,
                nanosecond as int,
            ),
            clock matches Some(c) ==> c.position() == week_position(
                weekday as int,
                hour as int,
                minute as int,
                second as int,
                nanosecond as int,
            ),
    {
        if 1 <= weekday && weekday <= 7 && hour < 24 && minute < 60 && second < 60 && nanosecond
            < 1_000_000_000 {
            Some(WallClock { weekday, hour, minute, second, nanosecond })
        } else {
            None
        }
    }

    /// The time shown within the week, in nanoseconds.
    pub fn offset(&self) -> (p: u64)
        ensures
            p == self.position(),
            p < WEEK_NANOS,
    {
        proof {
            use_type_invariant(self);
        }
        position_of(self.weekday, self.hour, self.minute, self.second, self.nanosecond)
    }
}

/// The time from the position `now` in the week to the next time that the
/// position `target` comes: a whole week where the two are the same.
pub open spec fn wait(target: int, now: int) -> int {
    if target > now {
        target - now
    } else {
        target + WEEK_NANOS - now
    }
}

/// The first weekly instant after `now`, on a clock that counts nanoseconds
/// from the start of some week: the least time after `now` whose position
/// in its week is `target`.
pub open spec fn next_instant(target: int, now: int) -> int {
    now + wait(target, now % 604_800_000_000_000)
}

/// The last time that the scheduler's clock can show.
pub const LAST_INSTANT: u64 = 0xfff0_0000_0000_0000;

/// The announcement that goes out every week.
pub open spec fn broadcast_view() -> ReplyView {
    ReplyView {
        text: "仙人仙彩开奖啦，请记得到金碟游乐场 (X: 8.6, Y: 5.7)处兑换奖励哦~"@,
        target_user_id: None,
        target_group_id: Some(790720353u64),
    }
}

/// The announcement that goes out every week, to its fixed group.
pub fn broadcast() -> (reply: OutboundReply)
    ensures
        reply@ == broadcast_view(),
        reply.well_addressed(),
{
    OutboundReply {
        text: String::from_str(
            "仙人仙彩开奖啦，请记得到金碟游乐场 (X: 8.6, Y: 5.7)处兑换奖励哦~",
        ),
        target_user_id: None,
        target_group_id: Some(790720353),
    }
}

/// When the announcement goes out: Saturdays at nine in the evening.
pub fn broadcast_schedule() -> (schedule: WeeklySchedule)
    ensures
        schedule.position() == week_position(6, 21, 0, 0, 0),
{
    WeeklySchedule { weekday: 6, hour: 21, minute: 0, second: 0 }
}

/// A timer that comes due once a week. It keeps the time at which it is
/// next due; a firing that was missed is not made up for.
pub struct Scheduler {
    target: u64,
    due: u64,
}

impl Scheduler {
    #[verifier::type_invariant]
    spec fn valid(self) -> bool {
        self.target < WEEK_NANOS
    }

    /// The position in the week at which the timer comes due.
    pub closed spec fn target(self) -> int {
        self.target as int
    }

    /// The time at which the timer is next due.
    pub closed spec fn due(self) -> int {
        self.due as int
    }

    /// Arms a timer at time `now` for the first scheduled instant after it.
    pub fn start(schedule: &WeeklySchedule, now: u64) -> (timer: Scheduler)
        requires
            now <= LAST_INSTANT,
        ensures
            timer.target() == schedule.position(),
            timer.due() == next_instant(schedule.position(), now as int),
    {
        let target = schedule.offset();
        Scheduler { target, due: instant_after(target, now) }
    }

    /// How long the timer has to wait at time `now` until it is due.
    pub fn remaining(&self, now: u64) -> (nanos: u64)
        ensures
            nanos == if self.due() > now {
                self.due() - now
            } else {
                0
            },
    {
        if self.due > now {
            self.due - now
        } else {
            0
        }
    }

    /// Looks at the clock. Where the timer is due, the announcement comes
    /// back, once, and the timer is armed for the first scheduled instant
    /// after `now`; before that nothing happens.
    pub fn poll(&mut self, now: u64) -> (fired: Option<OutboundReply>)
        requires
            now <= LAST_INSTANT,
        ensures
            final(self).target() == old(self).target(),
            (final(self).due(), fired is Some) == step(old(self).target(), old(self).due(), now as int),
            fired matches Some(reply) ==> reply@ == broadcast_view(),
    {
        proof {
            use_type_invariant(&*self);
        }
        if now >= self.due {
            self.due = instant_after(self.target, now);
            Some(broadcast())
        } else {
            None
        }
    }
}

fn instant_after(target: u64, now: u64) -> (t: u64)
    requires
        target < WEEK_NANOS,
        now <= LAST_INSTANT,
    ensures
        t == next_instant(target as int, now as int),
        now < t <= now + WEEK_NANOS,
{
    let position = now % WEEK_NANOS;
    if target > position {
        now + (target - position)
    } else {
        now + (target + WEEK_NANOS - position)
    }
}

/// One look at the clock: the time at which the timer is due afterwards,
/// and whether it fired.
pub open spec fn step(target: int, due: int, now: int) -> (int, bool) {
    if now >= due {
        (next_instant(target, now), true)
    } else {
        (due, false)
    }
}

/// The timer after it has looked at the clock at each of the times `looks`
/// in turn: the time at which it is due, and how often it has fired.
pub open spec fn run(target: int, due: int, looks: Seq<int>) -> (int, nat)
    decreases looks.len(),
{
    if looks.len() == 0 {
        (due, 0)
    } else {
        let (before, count) = run(target, due, looks.drop_last());
        let (after, fired) = step(target, before, looks.last());
        (
            after,
            if fired {
                count + 1
            } else {
                count
            },
        )
    }
}

/// Whether each time is at or after the one before it.
pub open spec fn never_back(looks: Seq<int>) -> bool {
    forall|i: int, j: int| 0 <= i <= j < looks.len() ==> looks[i] <= looks[j]
}

/// The next instant is the first time after `now` at which the scheduled
/// position in the week comes round: it lies within a week of `now`, and no
/// time between the two has that position.
pub proof fn lemma_next_instant(target: int, now: int)
    requires
        0 <= target < WEEK_NANOS,
        0 <= now,
    ensures
        now < next_instant(target, now) <= now + WEEK_NANOS,
        next_instant(target, now) % 604_800_000_000_000 == target,
        forall|t: int|
            now < t < next_instant(target, now) ==> #[trigger] (t % 604_800_000_000_000) != target,
{
}

/// A timer that is armed at `start` and then looks at the clock at times
/// that never go back fires exactly once if exactly one scheduled instant
/// has passed by its last look, however often it looked before, and not at
/// all if none has.
pub proof fn lemma_one_instant_one_broadcast(target: int, start: int, looks: Seq<int>)
    requires
        0 <= target < WEEK_NANOS,
        0 <= start,
        looks.len() > 0,
        never_back(looks),
        start <= looks[0],
        looks.last() < next_instant(target, start) + WEEK_NANOS,
    ensures
        looks.last() >= next_instant(target, start) ==> run(
            target,
            next_instant(target, start),
            looks,
        ).1 == 1,
        looks.last() < next_instant(target, start) ==> run(
            target,
            next_instant(target, start),
            looks,
        ) == (next_instant(target, start), 0nat),
{
    lemma_run_within_two(target, start, looks);
}

proof fn lemma_run_within_two(target: int, start: int, looks: Seq<int>)
    requires
        0 <= target < WEEK_NANOS,
        0 <= start,
        never_back(looks),
        looks.len() > 0 ==> start <= looks[0] && looks.last() < next_instant(target, start)
            + WEEK_NANOS,
    ensures
        run(target, next_instant(target, start), looks) == if looks.len() > 0 && looks.last()
            >= next_instant(target, start) {
            (next_instant(target, start) + WEEK_NANOS, 1nat)
        } else {
            (next_instant(target, start), 0nat)
        },
    decreases looks.len(),
{
    let first = next_instant(target, start);
    let w = WEEK_NANOS as int;
    if looks.len() > 0 {
        let before = looks.drop_last();
        let now = looks.last();
        assert(never_back(before)) by {
            assert forall|i: int, j: int| 0 <= i <= j < before.len() implies before[i] <= before[j] by {
                assert(before[i] == looks[i] && before[j] == looks[j]);
            }
        }
        if before.len() > 0 {
            assert(before[0] == looks[0]);
            assert(before.last() == looks[before.len() - 1]);
            assert(before.last() <= now);
        }
        lemma_run_within_two(target, start, before);
        lemma_next_instant(target, start);
        assert(start <= now) by {
            assert(looks[0] <= looks[looks.len() - 1]);
        }
        if now >= first {
            lemma_next_instant(target, now);
            let next = next_instant(target, now);
            assert(next == first + w) by {
                lemma_same_position_apart(target, first, next);
            }
        }
    }
}

proof fn lemma_same_position_apart(target: int, a: int, b: int)
    requires
        0 <= a < b,
        b - a < 2 * WEEK_NANOS,
        a % 604_800_000_000_000 == target,
        b % 604_800_000_000_000 == target,
    ensures
        b == a + WEEK_NANOS,
{
}

} // verus!

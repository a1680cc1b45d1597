//! The decisions of the delivery loop: when to look for due messages again,
//! and when to wake up for the next delivery.
use vstd::prelude::*;

use crate::time::{Delay, Timestamp, MAX_TIMESTAMP_SECS};

verus! {

/// How many due messages one pass takes at most.
pub const BATCH_PROCESS_LIMIT: i64 = 50;

/// How many due messages a query takes when no limit is given.
pub const DEFAULT_QUERY_LIMIT: i64 = 20;

/// Seconds in a year of 365 days.
pub const SECONDS_PER_YEAR: i64 = 31_536_000;

/// How long to wait before asking again when the next delivery time could not be read.
pub const RETRY_SECONDS: i64 = 10;

/// What follows a pass over due messages.
#[derive(Clone, Copy, Debug, PartialEq, Eq, Structural)]
pub enum BatchFollowUp {
    /// The batch was full: more messages may be due, so run again at once.
    RunAgain,
    /// Fewer than a full batch: ask for the schedule to be refreshed.
    RefreshSchedule,
}

/// What follows a pass that dispatched `message_count` messages.
pub fn batch_follow_up(message_count: usize) -> (r: BatchFollowUp)
    ensures
        r == BatchFollowUp::RunAgain <==> message_count == BATCH_PROCESS_LIMIT,
        r == BatchFollowUp::RunAgain <==> message_count == 50,
{
    if message_count == 50 {
        BatchFollowUp::RunAgain
    } else {
        BatchFollowUp::RefreshSchedule
    }
}

/// How many due messages a query takes: the given limit, or the default.
pub fn delivery_query_limit(limit: Option<i64>) -> (r: i64)
    ensures
        r == match limit {
            Some(l) => l,
            None => DEFAULT_QUERY_LIMIT,
        },
        limit is None ==> r == 20,
{
    match limit {
        Some(l) => l,
        None => 20,
    }
}

/// What the query for the earliest scheduled delivery gave.
#[derive(Clone, Copy, Debug, PartialEq, Eq, Structural)]
pub enum NextDeliveryQuery {
    /// The earliest delivery time of a stored message.
    Found(Timestamp),
    /// No message is stored.
    NothingScheduled,
    /// The query failed.
    Failed,
}

/// Whether the fallback time for `q` fits the calendar, read at `now`.
pub open spec fn fallback_fits(q: NextDeliveryQuery, now: Timestamp) -> bool {
    match q {
        NextDeliveryQuery::Found(t) => t.wf(),
        NextDeliveryQuery::NothingScheduled => now.secs + SECONDS_PER_YEAR <= MAX_TIMESTAMP_SECS,
        NextDeliveryQuery::Failed => now.secs + RETRY_SECONDS <= MAX_TIMESTAMP_SECS,
    }
}

/// The next delivery time after a query: the time found, a year from now
/// when nothing is stored, or ten seconds from now when the query failed.
pub open spec fn next_delivery_spec(q: NextDeliveryQuery, now: Timestamp) -> Timestamp {
    match q {
        NextDeliveryQuery::Found(t) => t,
        NextDeliveryQuery::NothingScheduled => Timestamp {
            secs: (now.secs + SECONDS_PER_YEAR) as i64,
            nanos: now.nanos,
        },
        NextDeliveryQuery::Failed => Timestamp {
            secs: (now.secs + RETRY_SECONDS) as i64,
            nanos: now.nanos,
        },
    }
}

/// The next delivery time after the query `q`, read at `now`.
pub fn next_delivery_after_query(q: NextDeliveryQuery, now: Timestamp) -> (r: Timestamp)
    requires
        now.wf(),
        fallback_fits(q, now),
    ensures
        r == next_delivery_spec(q, now),
        r.wf(),
{
    match q {
        NextDeliveryQuery::Found(t) => t,
        NextDeliveryQuery::NothingScheduled => now.plus_seconds(SECONDS_PER_YEAR),
        NextDeliveryQuery::Failed => now.plus_seconds(RETRY_SECONDS),
    }
}

/// The next delivery time after the query `q` with the fallback counted from
/// `now`, or nothing when that fallback passes the end of the calendar.
pub open spec fn fetched_delivery_spec(q: NextDeliveryQuery, now: Timestamp) -> Option<Timestamp> {
    if fallback_fits(q, now) {
        Some(next_delivery_spec(q, now))
    } else {
        None
    }
}

/// Refreshing the schedule gives a found time as it is, whenever it falls;
/// when nothing is stored, the same instant of day 365 days (31,536,000
/// seconds) after `now`; when the query failed, ten seconds after `now`.
/// Nothing is given only when that sum passes the end of the calendar.
pub proof fn refresh_gives_found_time_or_fallback(q: NextDeliveryQuery, now: Timestamp)
    requires
        now.wf(),
        q matches NextDeliveryQuery::Found(t) ==> t.wf(),
    ensures
        q matches NextDeliveryQuery::Found(t) ==> next_delivery_spec(q, now) == t
            && fetched_delivery_spec(q, now) == Some(t),
        q is NothingScheduled ==> (fetched_delivery_spec(q, now) is Some <==> now.secs + 31_536_000
            <= MAX_TIMESTAMP_SECS),
        q is NothingScheduled && now.secs + 31_536_000 <= MAX_TIMESTAMP_SECS ==> fetched_delivery_spec(
            q,
            now,
        ) == Some(Timestamp { secs: (now.secs + 31_536_000) as i64, nanos: now.nanos })
            && next_delivery_spec(q, now).total_nanos() == now.total_nanos() + 31_536_000_000_000_000,
        q is Failed ==> (fetched_delivery_spec(q, now) is Some <==> now.secs + 10 <= MAX_TIMESTAMP_SECS),
        q is Failed && now.secs + 10 <= MAX_TIMESTAMP_SECS ==> fetched_delivery_spec(q, now) == Some(
            Timestamp { secs: (now.secs + 10) as i64, nanos: now.nanos },
        ) && next_delivery_spec(q, now).total_nanos() == now.total_nanos() + 10_000_000_000,
{
}

/// The next delivery time after the query `q`, with the fallback counted
/// from `now`. `None` when the fallback would pass the end of the calendar,
/// where the calendar library refuses the sum.
pub fn fetch_next_message_delivery(q: NextDeliveryQuery, now: Timestamp) -> (r: Option<Timestamp>)
    requires
        now.wf(),
        q matches NextDeliveryQuery::Found(t) ==> t.wf(),
    ensures
        r == fetched_delivery_spec(q, now),
{
    let fits = match q {
        NextDeliveryQuery::Found(_) => true,
        NextDeliveryQuery::NothingScheduled => now.secs <= MAX_TIMESTAMP_SECS - SECONDS_PER_YEAR,
        NextDeliveryQuery::Failed => now.secs <= MAX_TIMESTAMP_SECS - RETRY_SECONDS,
    };
    if fits {
        Some(next_delivery_after_query(q, now))
    } else {
        None
    }
}

/// A new delivery time for the schedule.
#[derive(Clone, Copy, Debug, PartialEq, Eq, Structural)]
pub enum DeliveryUpdate {
    /// A message was stored with this delivery time.
    Scheduled(Timestamp),
    /// The schedule was read again from storage; this is its next delivery time.
    Refreshed(Timestamp),
}

impl DeliveryUpdate {
    pub open spec fn time(self) -> Timestamp {
        match self {
            DeliveryUpdate::Scheduled(t) => t,
            DeliveryUpdate::Refreshed(t) => t,
        }
    }
}

/// When the loop looks for due messages next.
#[derive(Clone, Copy, Debug, PartialEq, Eq, Structural)]
pub enum WakeUp {
    /// After this delay, from a timer.
    After(Delay),
    /// At once: the time has already come.
    Immediately,
}

/// What the schedule asks the loop to do after an update.
#[derive(Clone, Copy, Debug, PartialEq, Eq, Structural)]
pub enum SchedulerAction {
    /// Nothing changes.
    Keep,
    /// Wake up for the new delivery time, cancelling the pending timer first
    /// when `cancel_timer` holds.
    Reschedule { cancel_timer: bool, wake: WakeUp },
}

/// The wake-up for delivery time `t` seen at `now`: after the delay until
/// `t`, or at once when `t` has passed.
pub open spec fn wake_for(t: Timestamp, now: Timestamp, w: WakeUp) -> bool {
    match w {
        WakeUp::After(d) => d.wf() && t.total_nanos() >= now.total_nanos() && d.total_nanos()
            == t.total_nanos() - now.total_nanos(),
        WakeUp::Immediately => t.total_nanos() < now.total_nanos(),
    }
}

/// The awaited time after an update: the update's time when it is taken.
pub open spec fn awaited_after(awaited: Timestamp, u: DeliveryUpdate) -> Timestamp {
    if u is Refreshed || u.time().total_nanos() < awaited.total_nanos() {
        u.time()
    } else {
        awaited
    }
}

/// The awaited time after the updates `us`, one after the other.
pub open spec fn awaited_after_all(awaited: Timestamp, us: Seq<DeliveryUpdate>) -> Timestamp
    decreases us.len(),
{
    if us.len() == 0 {
        awaited
    } else {
        awaited_after_all(awaited_after(awaited, us[0]), us.drop_first())
    }
}

/// Between refreshes the schedule awaits the earliest time: after any run of
/// newly scheduled times, the awaited time is the first-awaited time or one of
/// them, and no later than any of them.
pub proof fn scheduled_updates_await_earliest(awaited: Timestamp, us: Seq<DeliveryUpdate>)
    requires
        forall|i: int| 0 <= i < us.len() ==> (#[trigger] us[i]) is Scheduled,
    ensures
        awaited_after_all(awaited, us).total_nanos() <= awaited.total_nanos(),
        forall|i: int|
            0 <= i < us.len() ==> awaited_after_all(awaited, us).total_nanos() <= (
            #[trigger] us[i]).time().total_nanos(),
        awaited_after_all(awaited, us) == awaited || exists|i: int|
            0 <= i < us.len() && awaited_after_all(awaited, us) == (#[trigger] us[i]).time(),
    decreases us.len(),
{
    if us.len() > 0 {
        let next = awaited_after(awaited, us[0]);
        let rest = us.drop_first();
        assert forall|i: int| 0 <= i < rest.len() implies (#[trigger] rest[i]) is Scheduled by {
            assert(rest[i] == us[i + 1]);
        }
        scheduled_updates_await_earliest(next, rest);
        let r = awaited_after_all(awaited, us);
        assert(r == awaited_after_all(next, rest));
        assert forall|i: int| 0 <= i < us.len() implies r.total_nanos() <= (
        #[trigger] us[i]).time().total_nanos() by {
            if i > 0 {
                assert(us[i] == rest[i - 1]);
            }
        }
        if r != next {
            let k = choose|k: int| 0 <= k < rest.len() && r == (#[trigger] rest[k]).time();
            assert(us[k + 1] == rest[k]);
        } else if next != awaited {
            assert(r == us[0].time());
        }
    }
}

/// The schedule of the next delivery: the time the loop is waiting for, and
/// whether a timer has been started for it.
pub struct DeliveryScheduler {
    pub next_delivery: Timestamp,
    pub timer_armed: bool,
}

impl DeliveryScheduler {
    pub open spec fn wf(self) -> bool {
        self.next_delivery.wf()
    }

    /// Whether an update is taken: a refresh always is, a newly scheduled
    /// time only when it is earlier than the one awaited.
    pub open spec fn takes(self, u: DeliveryUpdate) -> bool {
        u is Refreshed || u.time().total_nanos() < self.next_delivery.total_nanos()
    }

    /// A schedule that awaits `now`, with no timer.
    pub fn new(now: Timestamp) -> (r: DeliveryScheduler)
        requires
            now.wf(),
        ensures
            r.wf(),
            r.next_delivery == now,
            !r.timer_armed,
    {
        DeliveryScheduler { next_delivery: now, timer_armed: false }
    }

    /// Takes an update seen at `now`: a taken update becomes the awaited
    /// time, cancels the pending timer, and wakes the loop when it is due.
    pub fn on_update(&mut self, update: DeliveryUpdate, now: Timestamp) -> (r: SchedulerAction)
        requires
            old(self).wf(),
            update.time().wf(),
            now.wf(),
        ensures
            final(self).wf(),
            final(self).next_delivery == awaited_after(old(self).next_delivery, update),
            old(self).takes(update) ==> {
                &&& final(self).next_delivery == update.time()
                &&& r matches SchedulerAction::Reschedule { cancel_timer, wake } && cancel_timer
                    == old(self).timer_armed && wake_for(update.time(), now, wake)
                    && final(self).timer_armed == (old(self).timer_armed || wake is After)
            },
            !old(self).takes(update) ==> r == SchedulerAction::Keep && *final(self) == *old(self),
            update is Scheduled ==> final(self).next_delivery.total_nanos() <= old(
                self,
            ).next_delivery.total_nanos(),
            (*final(self), r) == schedule_step(*old(self), update, now),
    {
        let (t, refresh) = match update {
            DeliveryUpdate::Scheduled(t) => (t, false),
            DeliveryUpdate::Refreshed(t) => (t, true),
        };
        if refresh || t.is_before(&self.next_delivery) {
            self.next_delivery = t;
            let cancel_timer = self.timer_armed;
            let wake = match t.delay_since(&now) {
                Some(d) => {
                    proof {
                        lemma_delay_is_delay_until(d, t, now);
                    }
                    self.timer_armed = true;
                    WakeUp::After(d)
                },
                None => WakeUp::Immediately,
            };
            SchedulerAction::Reschedule { cancel_timer, wake }
        } else {
            SchedulerAction::Keep
        }
    }
}


/// The delay from `now` until `t`, for `t` not earlier than `now`.
pub open spec fn delay_until(t: Timestamp, now: Timestamp) -> Delay {
    let diff = t.total_nanos() - now.total_nanos();
    Delay { secs: (diff / 1_000_000_000) as u64, nanos: (diff % 1_000_000_000) as u32 }
}

/// One step of the schedule: the schedule and the action after the update
/// `u` seen at `now`.
pub open spec fn schedule_step(s: DeliveryScheduler, u: DeliveryUpdate, now: Timestamp) -> (
    DeliveryScheduler,
    SchedulerAction,
) {
    if s.takes(u) {
        let t = u.time();
        if t.total_nanos() >= now.total_nanos() {
            (
                DeliveryScheduler { next_delivery: t, timer_armed: true },
                SchedulerAction::Reschedule {
                    cancel_timer: s.timer_armed,
                    wake: WakeUp::After(delay_until(t, now)),
                },
            )
        } else {
            (
                DeliveryScheduler { next_delivery: t, timer_armed: s.timer_armed },
                SchedulerAction::Reschedule {
                    cancel_timer: s.timer_armed,
                    wake: WakeUp::Immediately,
                },
            )
        }
    } else {
        (s, SchedulerAction::Keep)
    }
}

proof fn lemma_delay_is_delay_until(d: Delay, t: Timestamp, now: Timestamp)
    requires
        d.wf(),
        d.total_nanos() == t.total_nanos() - now.total_nanos(),
    ensures
        d == delay_until(t, now),
{
    let diff = t.total_nanos() - now.total_nanos();
    vstd::arithmetic::div_mod::lemma_fundamental_div_mod_converse(
        diff,
        1_000_000_000,
        d.secs as int,
        d.nanos as int,
    );
}

/// The instant, in nanoseconds since the epoch, at which the loop's live
/// timer fires, after the loop carries out `action` taken at `now`: a timer
/// it cancels is no longer live, and a timer it starts fires after its delay.
pub open spec fn live_timer_after(live: Option<int>, action: SchedulerAction, now: Timestamp) -> Option<
    int,
> {
    match action {
        SchedulerAction::Keep => live,
        SchedulerAction::Reschedule { cancel_timer, wake } => match wake {
            WakeUp::After(d) => Some(now.total_nanos() + d.total_nanos()),
            WakeUp::Immediately => if cancel_timer {
                None
            } else {
                live
            },
        },
    }
}

/// A live timer is one the schedule knows of, and it fires at the awaited time.
pub open spec fn timer_agrees(s: DeliveryScheduler, live: Option<int>) -> bool {
    live matches Some(at) ==> s.timer_armed && at == s.next_delivery.total_nanos()
}

/// Whether carrying out `action` starts a timer while another is live and
/// not cancelled.
pub open spec fn starts_second_timer(live: Option<int>, action: SchedulerAction) -> bool {
    &&& live is Some
    &&& action matches SchedulerAction::Reschedule { cancel_timer, wake } && wake is After
        && !cancel_timer
}

/// The schedule and the live timer after the updates `us`, the `i`-th seen at `nows[i]`.
pub open spec fn run_schedule(
    s: DeliveryScheduler,
    live: Option<int>,
    us: Seq<DeliveryUpdate>,
    nows: Seq<Timestamp>,
) -> (DeliveryScheduler, Option<int>)
    decreases us.len(),
{
    if us.len() == 0 || nows.len() == 0 {
        (s, live)
    } else {
        let (s2, a) = schedule_step(s, us[0], nows[0]);
        run_schedule(s2, live_timer_after(live, a, nows[0]), us.drop_first(), nows.drop_first())
    }
}

/// One step keeps at most one timer live, and that timer fires exactly at
/// the awaited delivery time: a timer is only started after the live one is
/// cancelled.
pub proof fn schedule_step_keeps_one_timer(
    s: DeliveryScheduler,
    live: Option<int>,
    u: DeliveryUpdate,
    now: Timestamp,
)
    requires
        s.wf(),
        u.time().wf(),
        now.wf(),
        timer_agrees(s, live),
    ensures
        schedule_step(s, u, now).0.wf(),
        !starts_second_timer(live, schedule_step(s, u, now).1),
        timer_agrees(schedule_step(s, u, now).0, live_timer_after(live, schedule_step(s, u, now).1, now)),
{
    let t = u.time();
    if s.takes(u) && t.total_nanos() >= now.total_nanos() {
        let diff = t.total_nanos() - now.total_nanos();
        vstd::arithmetic::div_mod::lemma_fundamental_div_mod(diff, 1_000_000_000);
    }
}

/// Over any run of updates, at most one timer is live at a time, and the
/// live timer, if any, fires exactly at the awaited delivery time.
pub proof fn schedule_run_keeps_one_timer(
    s: DeliveryScheduler,
    live: Option<int>,
    us: Seq<DeliveryUpdate>,
    nows: Seq<Timestamp>,
)
    requires
        s.wf(),
        timer_agrees(s, live),
        forall|i: int| 0 <= i < us.len() ==> (#[trigger] us[i]).time().wf(),
        forall|i: int| 0 <= i < nows.len() ==> (#[trigger] nows[i]).wf(),
    ensures
        run_schedule(s, live, us, nows).0.wf(),
        timer_agrees(run_schedule(s, live, us, nows).0, run_schedule(s, live, us, nows).1),
    decreases us.len(),
{
    if us.len() > 0 && nows.len() > 0 {
        schedule_step_keeps_one_timer(s, live, us[0], nows[0]);
        let (s2, a) = schedule_step(s, us[0], nows[0]);
        let rest_us = us.drop_first();
        let rest_nows = nows.drop_first();
        assert forall|i: int| 0 <= i < rest_us.len() implies (#[trigger] rest_us[i]).time().wf() by {
            assert(rest_us[i] == us[i + 1]);
        }
        assert forall|i: int| 0 <= i < rest_nows.len() implies (#[trigger] rest_nows[i]).wf() by {
            assert(rest_nows[i] == nows[i + 1]);
        }
        schedule_run_keeps_one_timer(s2, live_timer_after(live, a, nows[0]), rest_us, rest_nows);
    }
}

} // verus!

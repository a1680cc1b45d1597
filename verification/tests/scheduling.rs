use scheduler::process_loop::{
    batch_follow_up, delivery_query_limit, fetch_next_message_delivery, next_delivery_after_query,
    BatchFollowUp, DeliveryScheduler, DeliveryUpdate, NextDeliveryQuery, SchedulerAction, WakeUp,
    BATCH_PROCESS_LIMIT,
};
use scheduler::time::{Delay, Timestamp, MAX_TIMESTAMP_SECS, MIN_TIMESTAMP_SECS};

fn t(secs: i64, nanos: u32) -> Timestamp {
    Timestamp { secs, nanos }
}

#[test]
fn full_batch_runs_again() {
    assert_eq!(BATCH_PROCESS_LIMIT, 50);
    assert_eq!(batch_follow_up(50), BatchFollowUp::RunAgain);
    assert_eq!(batch_follow_up(49), BatchFollowUp::RefreshSchedule);
    assert_eq!(batch_follow_up(0), BatchFollowUp::RefreshSchedule);
    assert_eq!(batch_follow_up(51), BatchFollowUp::RefreshSchedule);
}

#[test]
fn query_limit_defaults_to_twenty() {
    assert_eq!(delivery_query_limit(None), 20);
    assert_eq!(delivery_query_limit(Some(50)), 50);
}

#[test]
fn next_delivery_fallbacks() {
    let now = t(1_000, 5);
    assert_eq!(next_delivery_after_query(NextDeliveryQuery::Found(t(7, 1)), now), t(7, 1));
    assert_eq!(next_delivery_after_query(NextDeliveryQuery::NothingScheduled, now), t(1_000 + 31_536_000, 5));
    assert_eq!(next_delivery_after_query(NextDeliveryQuery::Failed, now), t(1_010, 5));
    assert_eq!(fetch_next_message_delivery(NextDeliveryQuery::Found(t(9, 9)), now), Some(t(9, 9)));
    assert_eq!(fetch_next_message_delivery(NextDeliveryQuery::Failed, now), Some(t(1_010, 5)));
    let late = t(MAX_TIMESTAMP_SECS - 5, 0);
    assert_eq!(fetch_next_message_delivery(NextDeliveryQuery::Failed, late), None);
    assert_eq!(fetch_next_message_delivery(NextDeliveryQuery::NothingScheduled, late), None);
    assert_eq!(fetch_next_message_delivery(NextDeliveryQuery::Found(t(1, 0)), late), Some(t(1, 0)));
}

#[test]
fn earlier_time_reschedules_with_delay() {
    let mut s = DeliveryScheduler::new(t(100, 0));
    let a = s.on_update(DeliveryUpdate::Scheduled(t(50, 250)), t(40, 500));
    assert_eq!(
        a,
        SchedulerAction::Reschedule {
            cancel_timer: false,
            wake: WakeUp::After(Delay { secs: 9, nanos: 999_999_750 })
        }
    );
    assert_eq!(s.next_delivery, t(50, 250));
    assert!(s.timer_armed);
    let b = s.on_update(DeliveryUpdate::Scheduled(t(45, 0)), t(40, 0));
    assert_eq!(
        b,
        SchedulerAction::Reschedule { cancel_timer: true, wake: WakeUp::After(Delay { secs: 5, nanos: 0 }) }
    );
}

#[test]
fn later_time_is_ignored() {
    let mut s = DeliveryScheduler::new(t(100, 0));
    assert_eq!(s.on_update(DeliveryUpdate::Scheduled(t(100, 0)), t(0, 0)), SchedulerAction::Keep);
    assert_eq!(s.on_update(DeliveryUpdate::Scheduled(t(200, 0)), t(0, 0)), SchedulerAction::Keep);
    assert_eq!(s.next_delivery, t(100, 0));
    assert!(!s.timer_armed);
}

#[test]
fn refresh_always_reschedules() {
    let mut s = DeliveryScheduler::new(t(100, 0));
    let a = s.on_update(DeliveryUpdate::Refreshed(t(300, 0)), t(100, 0));
    assert_eq!(
        a,
        SchedulerAction::Reschedule { cancel_timer: false, wake: WakeUp::After(Delay { secs: 200, nanos: 0 }) }
    );
    assert_eq!(s.next_delivery, t(300, 0));
}

#[test]
fn past_time_wakes_immediately() {
    let mut s = DeliveryScheduler::new(t(100, 0));
    let a = s.on_update(DeliveryUpdate::Scheduled(t(10, 0)), t(20, 0));
    assert_eq!(a, SchedulerAction::Reschedule { cancel_timer: false, wake: WakeUp::Immediately });
    assert!(!s.timer_armed);
    let now_zero = s.on_update(DeliveryUpdate::Refreshed(t(20, 0)), t(20, 0));
    assert_eq!(
        now_zero,
        SchedulerAction::Reschedule { cancel_timer: false, wake: WakeUp::After(Delay { secs: 0, nanos: 0 }) }
    );
}

#[test]
fn calendar_limits_match_chrono() {
    assert_eq!(MAX_TIMESTAMP_SECS, chrono::DateTime::<chrono::Utc>::MAX_UTC.timestamp());
    assert_eq!(MIN_TIMESTAMP_SECS, chrono::DateTime::<chrono::Utc>::MIN_UTC.timestamp());
}

#[test]
fn one_timer_at_a_time() {
    let mut s = DeliveryScheduler::new(t(100, 0));
    let mut live: Option<Timestamp> = None;
    let steps = [
        (DeliveryUpdate::Scheduled(t(90, 0)), t(10, 0)),
        (DeliveryUpdate::Scheduled(t(80, 0)), t(20, 0)),
        (DeliveryUpdate::Scheduled(t(85, 0)), t(30, 0)),
        (DeliveryUpdate::Refreshed(t(5, 0)), t(40, 0)),
        (DeliveryUpdate::Refreshed(t(70, 0)), t(50, 0)),
    ];
    for (u, now) in steps {
        match s.on_update(u, now) {
            SchedulerAction::Keep => {}
            SchedulerAction::Reschedule { cancel_timer, wake } => {
                if cancel_timer {
                    live = None;
                }
                match wake {
                    WakeUp::After(d) => {
                        assert!(live.is_none());
                        let fires = now.secs as i128 * 1_000_000_000 + now.nanos as i128
                            + d.secs as i128 * 1_000_000_000 + d.nanos as i128;
                        live = Some(Timestamp {
                            secs: (fires / 1_000_000_000) as i64,
                            nanos: (fires % 1_000_000_000) as u32,
                        });
                    }
                    WakeUp::Immediately => {}
                }
            }
        }
        if let Some(at) = live {
            assert_eq!(at, s.next_delivery);
        }
    }
    assert_eq!(live, Some(t(70, 0)));
}

#[test]
fn timestamp_arithmetic() {
    assert!(t(1, 5).is_before(&t(1, 6)));
    assert!(t(-1, 999_999_999).is_before(&t(0, 0)));
    assert!(!t(2, 0).is_before(&t(1, 999_999_999)));
    assert_eq!(t(3, 100).delay_since(&t(1, 200)), Some(Delay { secs: 1, nanos: 999_999_900 }));
    assert_eq!(t(1, 100).delay_since(&t(1, 200)), None);
    assert_eq!(t(1, 0).plus_seconds(10), t(11, 0));
}

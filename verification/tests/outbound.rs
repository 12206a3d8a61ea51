use eventbot::message::IncomingMessage;
use eventbot::queue::{deliver, encode_all, handle_message, outcome_of};
use eventbot::router::Event;
use eventbot::scheduler::{broadcast, broadcast_schedule, Scheduler, WallClock, WeeklySchedule, DAY_NANOS, WEEK_NANOS};
use chrono::{Datelike, TimeZone, Timelike, Utc};
use futures_channel::mpsc::unbounded;
use tokio_schedule::Job;

fn drain(rx: &mut futures_channel::mpsc::UnboundedReceiver<String>) -> Vec<String> {
    let mut out = Vec::new();
    while let Ok(Some(frame)) = rx.try_next() {
        out.push(frame);
    }
    out
}

#[test]
fn frames_arrive_in_order() {
    let (tx, mut rx) = unbounded::<String>();
    let frames: Vec<String> = (0..5).map(|i| format!("frame {}", i)).collect();
    assert!(deliver(&tx, &frames).is_empty());
    assert_eq!(drain(&mut rx), frames);
}

#[test]
fn each_producer_keeps_its_order() {
    let (tx, mut rx) = unbounded::<String>();
    let producers: Vec<_> = (0..10).map(|_| tx.clone()).collect();
    drop(tx);
    for round in 0..10 {
        for (p, producer) in producers.iter().enumerate() {
            let who = (p * 7 + round * 3) % 10;
            let _ = who;
            assert!(deliver(producer, &vec![format!("{}:{}", p, round)]).is_empty());
        }
    }
    drop(producers);
    let drained = drain(&mut rx);
    assert_eq!(drained.len(), 100);
    for p in 0..10 {
        let mine: Vec<usize> = drained
            .iter()
            .filter_map(|f| {
                let (who, round) = f.split_once(':').unwrap();
                if who.parse::<usize>().unwrap() == p {
                    Some(round.parse().unwrap())
                } else {
                    None
                }
            })
            .collect();
        assert_eq!(mine, (0..10).collect::<Vec<usize>>());
    }
}

#[test]
fn batches_of_producers_keep_their_order() {
    let (tx, mut rx) = unbounded::<String>();
    let first = tx.clone();
    let second = tx.clone();
    assert!(deliver(&first, &vec!["a1".to_string(), "a2".to_string()]).is_empty());
    assert!(deliver(&second, &vec!["b1".to_string()]).is_empty());
    assert!(deliver(&first, &vec!["a3".to_string()]).is_empty());
    assert!(deliver(&second, &vec!["b2".to_string(), "b3".to_string()]).is_empty());
    assert_eq!(drain(&mut rx), vec!["a1", "a2", "b1", "a3", "b2", "b3"]);
}

#[test]
fn a_closed_queue_refuses_and_the_producer_goes_on() {
    let (tx, rx) = unbounded::<String>();
    drop(rx);
    let frames = vec!["one".to_string(), "two".to_string()];
    let failures = deliver(&tx, &frames);
    assert_eq!(failures.len(), 2);
    assert_eq!(failures[0].index, 0);
    assert_eq!(failures[0].frame, "one");
    assert_eq!(failures[0].cause, "send failed because receiver is gone");
    assert_eq!(failures[1].index, 1);
    assert_eq!(failures[1].frame, "two");
    assert!(deliver(&tx, &vec![]).is_empty());
}

#[test]
fn outcomes_are_recorded() {
    let frame = "f".to_string();
    assert!(outcome_of(3, &frame, None).is_none());
    let failure = outcome_of(3, &frame, Some("why".to_string())).unwrap();
    assert_eq!(failure.index, 3);
    assert_eq!(failure.frame, "f");
    assert_eq!(failure.cause, "why");
}

#[test]
fn handled_message_is_answered_on_the_queue() {
    let (tx, mut rx) = unbounded::<String>();
    let message = IncomingMessage { msg: "#r 3 3\n1+1".to_string(), group: Some(77), sender: 5 };
    assert!(handle_message(&message, &Event::Nothing, &tx).is_empty());
    assert_eq!(
        drain(&mut rx),
        vec![
            r#"{"action":"send_msg","params":{"user_id":null,"group_id":77,"message":"[CQ:at,qq=5]2"}}"#.to_string(),
            r#"{"action":"send_msg","params":{"user_id":null,"group_id":77,"message":"[CQ:at,qq=5]掷出了3点！"}}"#
                .to_string(),
        ]
    );
    let direct = IncomingMessage { msg: "3*3".to_string(), group: None, sender: 5 };
    assert!(handle_message(&direct, &Event::Nothing, &tx).is_empty());
    assert_eq!(
        drain(&mut rx),
        vec![r#"{"action":"send_msg","params":{"user_id":5,"group_id":null,"message":"[CQ:at,qq=5]9"}}"#.to_string()]
    );
    let silent = IncomingMessage { msg: "hello".to_string(), group: None, sender: 5 };
    assert!(handle_message(&silent, &Event::Nothing, &tx).is_empty());
    assert!(drain(&mut rx).is_empty());
}

#[test]
fn handled_message_survives_a_closed_queue() {
    let (tx, rx) = unbounded::<String>();
    drop(rx);
    let message = IncomingMessage { msg: "1+1".to_string(), group: None, sender: 5 };
    let failures = handle_message(&message, &Event::Nothing, &tx);
    assert_eq!(failures.len(), 1);
    assert_eq!(
        failures[0].frame,
        r#"{"action":"send_msg","params":{"user_id":5,"group_id":null,"message":"[CQ:at,qq=5]2"}}"#
    );
}

#[test]
fn replies_are_encoded_in_order() {
    let message = IncomingMessage { msg: String::new(), group: None, sender: 1 };
    let frames = encode_all(&message.replies(vec!["a".to_string(), "b".to_string()]));
    assert_eq!(
        frames,
        vec![
            r#"{"action":"send_msg","params":{"user_id":1,"group_id":null,"message":"a"}}"#.to_string(),
            r#"{"action":"send_msg","params":{"user_id":1,"group_id":null,"message":"b"}}"#.to_string(),
        ]
    );
}

#[test]
fn the_broadcast_is_fixed() {
    let reply = broadcast();
    assert_eq!(reply.text, "仙人仙彩开奖啦，请记得到金碟游乐场 (X: 8.6, Y: 5.7)处兑换奖励哦~");
    assert_eq!(reply.target_group_id, Some(790720353));
    assert_eq!(reply.target_user_id, None);
    assert_eq!(
        reply.encode(),
        r#"{"action":"send_msg","params":{"user_id":null,"group_id":790720353,"message":"仙人仙彩开奖啦，请记得到金碟游乐场 (X: 8.6, Y: 5.7)处兑换奖励哦~"}}"#
    );
    assert_eq!(broadcast_schedule().offset(), 5 * DAY_NANOS + 21 * 3_600_000_000_000);
}

#[test]
fn schedules_and_clocks_are_checked() {
    assert!(WeeklySchedule::new(1, 0, 0, 0).is_some());
    assert!(WeeklySchedule::new(7, 23, 59, 59).is_some());
    assert!(WeeklySchedule::new(0, 0, 0, 0).is_none());
    assert!(WeeklySchedule::new(8, 0, 0, 0).is_none());
    assert!(WeeklySchedule::new(1, 24, 0, 0).is_none());
    assert!(WeeklySchedule::new(1, 0, 60, 0).is_none());
    assert!(WeeklySchedule::new(1, 0, 0, 60).is_none());
    assert!(WallClock::new(7, 23, 59, 59, 999_999_999).is_some());
    assert!(WallClock::new(7, 23, 59, 59, 1_000_000_000).is_none());
    assert!(WallClock::new(0, 0, 0, 0, 0).is_none());
    assert_eq!(WallClock::new(1, 0, 0, 0, 0).unwrap().offset(), 0);
    assert_eq!(WallClock::new(7, 23, 59, 59, 999_999_999).unwrap().offset(), WEEK_NANOS - 1);
    assert_eq!(WeeklySchedule::new(2, 1, 1, 1).unwrap().offset(), DAY_NANOS + 3_661_000_000_000);
}

#[test]
fn time_to_sleep_reaches_the_next_saturday_evening() {
    let schedule = broadcast_schedule();
    let at = |d, h, m, s, n| schedule.time_to_sleep(&WallClock::new(d, h, m, s, n).unwrap());
    assert_eq!(at(6, 20, 59, 59, 0), 1_000_000_000);
    assert_eq!(at(6, 20, 59, 59, 999_999_999), 1);
    assert_eq!(at(6, 21, 0, 0, 0), WEEK_NANOS);
    assert_eq!(at(6, 21, 0, 0, 1), WEEK_NANOS - 1);
    assert_eq!(at(6, 0, 0, 0, 0), 21 * 3_600_000_000_000);
    assert_eq!(at(5, 21, 0, 0, 0), DAY_NANOS);
    assert_eq!(at(7, 21, 0, 0, 0), 6 * DAY_NANOS);
    assert_eq!(at(1, 0, 0, 0, 0), 5 * DAY_NANOS + 21 * 3_600_000_000_000);
    assert_eq!(at(7, 23, 59, 59, 999_999_999), 5 * DAY_NANOS + 21 * 3_600_000_000_000 + 1);
}

#[test]
fn one_instant_one_broadcast() {
    let schedule = broadcast_schedule();
    let instant = 5 * DAY_NANOS + 21 * 3_600_000_000_000;
    let start = 2 * DAY_NANOS;
    let mut timer = Scheduler::start(&schedule, start);
    assert_eq!(timer.remaining(start), instant - start);
    let mut fired = Vec::new();
    let mut now = start;
    while now < instant + DAY_NANOS {
        if let Some(reply) = timer.poll(now) {
            fired.push((now, reply));
        }
        now += 3_600_000_000_000;
    }
    assert_eq!(fired.len(), 1);
    assert_eq!(fired[0].0, instant);
    assert_eq!(fired[0].1.text, broadcast().text);
    assert_eq!(fired[0].1.target_group_id, Some(790720353));
    assert_eq!(fired[0].1.target_user_id, None);
    assert_eq!(timer.remaining(now), instant + WEEK_NANOS - now);
}

#[test]
fn nothing_before_the_instant() {
    let schedule = broadcast_schedule();
    let instant = 5 * DAY_NANOS + 21 * 3_600_000_000_000;
    let mut timer = Scheduler::start(&schedule, 0);
    assert!(timer.poll(0).is_none());
    assert!(timer.poll(instant - 1).is_none());
    assert_eq!(timer.remaining(instant - 1), 1);
    assert!(timer.poll(instant).is_some());
    assert!(timer.poll(instant).is_none());
    assert!(timer.poll(instant + WEEK_NANOS - 1).is_none());
    assert!(timer.poll(instant + WEEK_NANOS).is_some());
}

#[test]
fn missed_firings_are_not_made_up() {
    let schedule = broadcast_schedule();
    let instant = 5 * DAY_NANOS + 21 * 3_600_000_000_000;
    let mut timer = Scheduler::start(&schedule, 0);
    assert!(timer.poll(instant + 3 * WEEK_NANOS + 5).is_some());
    assert!(timer.poll(instant + 3 * WEEK_NANOS + 6).is_none());
    assert_eq!(timer.remaining(instant + 3 * WEEK_NANOS + 6), WEEK_NANOS - 6);
    assert_eq!(timer.remaining(instant + 9 * WEEK_NANOS), 0);
}

#[test]
fn starting_on_the_instant_waits_a_week() {
    let schedule = broadcast_schedule();
    let instant = 5 * DAY_NANOS + 21 * 3_600_000_000_000;
    let mut timer = Scheduler::start(&schedule, instant);
    assert_eq!(timer.remaining(instant), WEEK_NANOS);
    assert!(timer.poll(instant).is_none());
}

#[test]
fn time_to_sleep_agrees_with_the_weekly_job() {
    let job = tokio_schedule::every(1).week().on(chrono::Weekday::Sat).at(21, 0, 0).in_timezone(&Utc);
    let schedule = broadcast_schedule();
    let mut now = Utc.with_ymd_and_hms(2024, 2, 26, 0, 0, 0).unwrap();
    let end = Utc.with_ymd_and_hms(2024, 3, 18, 0, 0, 0).unwrap();
    let mut checked = 0;
    while now < end {
        for nanos in [0u32, 1, 999_999_999] {
            let at = now + chrono::Duration::nanoseconds(nanos as i64);
            let clock = WallClock::new(
                at.weekday().number_from_monday() as u8,
                at.hour() as u8,
                at.minute() as u8,
                at.second() as u8,
                at.nanosecond(),
            )
            .unwrap();
            assert_eq!(schedule.time_to_sleep(&clock) as u128, job.time_to_sleep_at(&at).as_nanos(), "{}", at);
            checked += 1;
        }
        now = now + chrono::Duration::seconds(1801);
    }
    assert!(checked > 3000);
    for (d, h, m, s) in [(2, 20, 59, 59), (2, 21, 0, 0), (2, 21, 0, 1), (3, 0, 0, 0), (1, 23, 59, 59)] {
        let at = Utc.with_ymd_and_hms(2024, 3, d, h, m, s).unwrap();
        let clock = WallClock::new(
            at.weekday().number_from_monday() as u8,
            at.hour() as u8,
            at.minute() as u8,
            at.second() as u8,
            0,
        )
        .unwrap();
        assert_eq!(schedule.time_to_sleep(&clock) as u128, job.time_to_sleep_at(&at).as_nanos(), "{}", at);
    }
}

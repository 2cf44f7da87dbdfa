use sunshade::scheduler::{
    Action, Config, Input, Phase, Scheduler, Unexpected, NEAR_WINDOW_MILLIS, PAUSE_MILLIS,
};
use sunshade::sun::{Event, EventKind};

const MINUTE: i64 = 60_000;
const HOUR: i64 = 60 * MINUTE;

fn config() -> Config {
    Config {
        interval: 30,
        night_event: String::from("close_rollershutters"),
        day_event: String::from("open_rollershutters"),
    }
}

fn started() -> Scheduler {
    let mut scheduler = Scheduler::new(config());
    assert_eq!(scheduler.step(Input::Woke, 0), Ok(Action::FetchEvents));
    scheduler
}

#[test]
fn constants_are_45_minutes_and_5_seconds() {
    assert_eq!(NEAR_WINDOW_MILLIS, 45 * 60 * 1000);
    assert_eq!(PAUSE_MILLIS, 5000);
}

#[test]
fn default_config() {
    let config = Config::default();
    assert_eq!(config.interval, 30);
    assert_eq!(config.night_event, "close_rollershutters");
    assert_eq!(config.day_event, "open_rollershutters");
}

#[test]
fn new_schedule_is_idle() {
    let scheduler = Scheduler::new(config());
    assert_eq!(scheduler.phase(), Phase::Idle);
    assert_eq!(scheduler.last_handled(), None);
}

#[test]
fn hub_event_by_kind() {
    let scheduler = Scheduler::new(Config {
        interval: 1,
        night_event: String::from("night"),
        day_event: String::from("day"),
    });
    assert_eq!(scheduler.hub_event(EventKind::Sunset), "night");
    assert_eq!(scheduler.hub_event(EventKind::Sunrise), "day");
}

#[test]
fn sunrise_in_ten_minutes_is_confirmed_and_dispatched() {
    let now = 1_700_000_000_000;
    let sunrise = Event::Sunrise(now + 10 * MINUTE);
    let sunset = Event::Sunset(now + 8 * HOUR);
    let mut scheduler = started();

    // inside the window: no sleep, the camera is looked at right away
    let action = scheduler.step(Input::Events([sunrise, sunset]), now);
    assert_eq!(action, Ok(Action::SampleCamera));
    assert_eq!(scheduler.phase(), Phase::ConfirmingTransition(sunrise));

    // night vision still on: wait one interval and look again
    let action = scheduler.step(Input::Sample(true), now + 1);
    assert_eq!(action, Ok(Action::Sleep(30_000)));
    assert_eq!(scheduler.phase(), Phase::WaitingNearEvent(sunrise));
    let action = scheduler.step(Input::Woke, now + 30_001);
    assert_eq!(action, Ok(Action::SampleCamera));
    assert_eq!(scheduler.phase(), Phase::ConfirmingTransition(sunrise));

    // night vision off: the sunrise is confirmed
    let action = scheduler.step(Input::Sample(false), now + 30_002);
    assert_eq!(action, Ok(Action::Dispatch(sunrise)));
    assert_eq!(scheduler.phase(), Phase::Dispatching(sunrise));
    assert_eq!(scheduler.hub_event(sunrise.kind()), "open_rollershutters");
    assert_eq!(scheduler.last_handled(), None);

    // once the hub has it, the sunrise is recorded and the sunset is next
    let action = scheduler.step(Input::Dispatched, now + 30_003);
    assert_eq!(scheduler.last_handled(), Some(EventKind::Sunrise));
    assert_eq!(scheduler.phase(), Phase::AwaitingEvent(sunset));
    assert_eq!(action, Ok(Action::Sleep((8 * HOUR - 30_003 - 45 * MINUTE) as u64)));
}

#[test]
fn sunset_is_confirmed_by_night_vision() {
    let now = 50 * HOUR;
    let sunset = Event::Sunset(now + 2 * HOUR);
    let sunrise = Event::Sunrise(now + 14 * HOUR);
    let mut scheduler = started();
    let action = scheduler.step(Input::Events([sunset, sunrise]), now);
    assert_eq!(action, Ok(Action::Sleep((75 * MINUTE) as u64)));
    assert_eq!(scheduler.phase(), Phase::AwaitingEvent(sunset));
    assert_eq!(scheduler.step(Input::Woke, now + 75 * MINUTE), Ok(Action::SampleCamera));
    assert_eq!(scheduler.step(Input::Sample(false), now + 76 * MINUTE), Ok(Action::Sleep(30_000)));
    assert_eq!(scheduler.step(Input::Woke, now + 77 * MINUTE), Ok(Action::SampleCamera));
    assert_eq!(
        scheduler.step(Input::Sample(true), now + 78 * MINUTE),
        Ok(Action::Dispatch(sunset))
    );
    assert_eq!(scheduler.hub_event(sunset.kind()), "close_rollershutters");
    let action = scheduler.step(Input::Dispatched, now + 78 * MINUTE);
    assert_eq!(scheduler.last_handled(), Some(EventKind::Sunset));
    assert_eq!(action, Ok(Action::Sleep((14 * HOUR - 78 * MINUTE - 45 * MINUTE) as u64)));
}

#[test]
fn exactly_at_the_window_there_is_no_sleep() {
    let now = 1_000;
    let mut scheduler = started();
    let sunset = Event::Sunset(now + 45 * MINUTE);
    let action = scheduler.step(Input::Events([sunset, Event::Sunrise(now + 9 * HOUR)]), now);
    assert_eq!(action, Ok(Action::SampleCamera));
    let mut scheduler = started();
    let sunset = Event::Sunset(now + 45 * MINUTE + 1);
    let action = scheduler.step(Input::Events([sunset, Event::Sunrise(now + 9 * HOUR)]), now);
    assert_eq!(action, Ok(Action::Sleep(1)));
}

#[test]
fn kind_handled_last_is_skipped() {
    let now = 10 * HOUR;
    let mut scheduler = started();
    let sunrise = Event::Sunrise(now + MINUTE);
    let sunset = Event::Sunset(now + 10 * HOUR);
    scheduler.step(Input::Events([sunrise, sunset]), now).unwrap();
    scheduler.step(Input::Sample(false), now).unwrap();
    scheduler.step(Input::Dispatched, now).unwrap();
    scheduler.step(Input::Woke, now + 9 * HOUR + 15 * MINUTE).unwrap();
    scheduler.step(Input::Sample(true), now + 10 * HOUR).unwrap();
    // both handled: the cycle is over
    let action = scheduler.step(Input::Dispatched, now + 10 * HOUR);
    assert_eq!(action, Ok(Action::FetchEvents));
    assert_eq!(scheduler.phase(), Phase::Idle);
    assert_eq!(scheduler.last_handled(), Some(EventKind::Sunset));

    // the hub still reports a sunset first: it is passed over
    let stale = Event::Sunset(now + 10 * HOUR + MINUTE);
    let next = Event::Sunrise(now + 24 * HOUR);
    let action = scheduler.step(Input::Events([stale, next]), now + 10 * HOUR);
    assert_eq!(scheduler.phase(), Phase::AwaitingEvent(next));
    assert_eq!(action, Ok(Action::Sleep((14 * HOUR - 45 * MINUTE) as u64)));
}

#[test]
fn two_events_of_the_handled_kind_lead_back_to_the_hub() {
    let now = 0;
    let mut scheduler = started();
    scheduler.step(Input::Events([Event::Sunset(1), Event::Sunset(1)]), now).unwrap();
    scheduler.step(Input::Sample(true), now).unwrap();
    let action = scheduler.step(Input::Dispatched, now);
    assert_eq!(action, Ok(Action::FetchEvents));
    let action = scheduler.step(Input::Events([Event::Sunset(100), Event::Sunset(200)]), now);
    assert_eq!(action, Ok(Action::FetchEvents));
    assert_eq!(scheduler.phase(), Phase::Idle);
}

#[test]
fn past_event_pauses_and_restarts() {
    let now = 5 * HOUR;
    let mut scheduler = started();
    let past = Event::Sunrise(now - 1);
    let action = scheduler.step(Input::Events([past, Event::Sunset(now + HOUR)]), now);
    assert_eq!(action, Ok(Action::Sleep(5_000)));
    assert_eq!(scheduler.phase(), Phase::Idle);
    assert_eq!(scheduler.last_handled(), None);
    assert_eq!(scheduler.step(Input::Woke, now + 5_000), Ok(Action::FetchEvents));
    assert_eq!(scheduler.phase(), Phase::Idle);
}

#[test]
fn event_at_this_very_instant_counts_as_past() {
    let now = 77;
    let mut scheduler = started();
    let action = scheduler.step(Input::Events([Event::Sunset(now), Event::Sunrise(now + HOUR)]), now);
    assert_eq!(action, Ok(Action::Sleep(PAUSE_MILLIS)));
    let mut scheduler = started();
    let action =
        scheduler.step(Input::Events([Event::Sunset(now + 1), Event::Sunrise(now + HOUR)]), now);
    assert_eq!(action, Ok(Action::SampleCamera));
}

#[test]
fn second_event_in_the_past_ends_the_cycle() {
    let now = 1_000_000;
    let mut scheduler = started();
    let sunrise = Event::Sunrise(now + 1);
    let sunset = Event::Sunset(now + 2);
    scheduler.step(Input::Events([sunrise, sunset]), now).unwrap();
    scheduler.step(Input::Sample(false), now + 10).unwrap();
    let action = scheduler.step(Input::Dispatched, now + 20);
    assert_eq!(action, Ok(Action::Sleep(PAUSE_MILLIS)));
    assert_eq!(scheduler.phase(), Phase::Idle);
    assert_eq!(scheduler.last_handled(), Some(EventKind::Sunrise));
}

#[test]
fn unexpected_input_changes_nothing() {
    let mut scheduler = Scheduler::new(config());
    assert_eq!(
        scheduler.step(Input::Sample(true), 0),
        Err(Unexpected { phase: Phase::Idle })
    );
    assert_eq!(scheduler.step(Input::Dispatched, 0), Err(Unexpected { phase: Phase::Idle }));
    assert_eq!(scheduler.phase(), Phase::Idle);
    let sunset = Event::Sunset(10);
    scheduler.step(Input::Events([sunset, Event::Sunrise(20)]), 0).unwrap();
    let phase = Phase::ConfirmingTransition(sunset);
    assert_eq!(scheduler.step(Input::Woke, 0), Err(Unexpected { phase }));
    assert_eq!(scheduler.step(Input::Dispatched, 0), Err(Unexpected { phase }));
    assert_eq!(
        scheduler.step(Input::Events([sunset, sunset]), 0),
        Err(Unexpected { phase })
    );
    assert_eq!(scheduler.phase(), phase);
    assert_eq!(scheduler.step(Input::Sample(true), 0), Ok(Action::Dispatch(sunset)));
    let phase = Phase::Dispatching(sunset);
    assert_eq!(scheduler.step(Input::Sample(true), 0), Err(Unexpected { phase }));
    assert_eq!(scheduler.step(Input::Woke, 0), Err(Unexpected { phase }));
}

#[test]
fn interval_is_taken_from_the_config() {
    let mut scheduler = Scheduler::new(Config {
        interval: u16::MAX,
        night_event: String::from("n"),
        day_event: String::from("d"),
    });
    scheduler.step(Input::Events([Event::Sunset(10), Event::Sunrise(20)]), 0).unwrap();
    assert_eq!(scheduler.step(Input::Sample(false), 0), Ok(Action::Sleep(65_535_000)));
}

#[test]
fn far_apart_instants_do_not_overflow() {
    let mut scheduler = started();
    let action =
        scheduler.step(Input::Events([Event::Sunset(i64::MAX), Event::Sunrise(0)]), i64::MIN);
    assert_eq!(action, Ok(Action::Sleep(u64::MAX - NEAR_WINDOW_MILLIS)));
}

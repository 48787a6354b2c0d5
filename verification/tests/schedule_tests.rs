use nist_time_sync::instant::AuthoritativeInstant;
use nist_time_sync::schedule::{
    Action, ConfigError, Event, LifecycleSignal, Phase, Scheduler, StopReason, SyncError,
    SyncInterval, POLL_MILLIS,
};

const REPLY: &str = "52 24-06-01 14:23:05 50 0 0 123.4 UTC(NIST) *";
const SYNCED_AT: i64 = 1_717_251_785_123;

fn at(millis: i64) -> AuthoritativeInstant {
    AuthoritativeInstant::from_unix_millis(millis)
}

fn every(minutes: u64) -> SyncInterval {
    SyncInterval::new(minutes).unwrap()
}

fn woke(now: i64, signal: LifecycleSignal) -> Event {
    Event::Woke { now: at(now), signal }
}

fn asleep(minutes: u64) -> Scheduler {
    Scheduler::new(every(minutes))
        .step(Event::Reply(REPLY.to_string()))
        .step(Event::ClockSet)
}

#[test]
fn zero_interval_is_refused() {
    assert_eq!(SyncInterval::new(0), Err(ConfigError));
    assert_eq!(ConfigError.message(), "Interval must be higher than 0");
}

#[test]
fn positive_intervals_are_taken() {
    assert_eq!(SyncInterval::new(1).unwrap().minutes(), 1);
    assert_eq!(SyncInterval::new(60).unwrap().minutes(), 60);
    assert_eq!(SyncInterval::new(u64::MAX).unwrap().minutes(), u64::MAX);
}

#[test]
fn unit_is_singular_for_one_minute_only() {
    assert_eq!(every(1).unit_label(), "minute");
    assert_eq!(every(2).unit_label(), "minutes");
    assert_eq!(every(60).unit_label(), "minutes");
}

#[test]
fn interval_has_elapsed_from_the_exact_millisecond() {
    let five = every(5);
    assert!(!five.elapsed(at(1000), at(1000)));
    assert!(!five.elapsed(at(1000), at(1000 + 299_999)));
    assert!(five.elapsed(at(1000), at(1000 + 300_000)));
    assert!(five.elapsed(at(1000), at(1000 + 300_001)));
    assert!(!five.elapsed(at(1000), at(-5)));
}

#[test]
fn elapsed_holds_at_the_ends_of_the_range() {
    assert!(every(1).elapsed(at(i64::MIN), at(i64::MAX)));
    assert!(!every(1).elapsed(at(i64::MAX), at(i64::MIN)));
    assert!(!every(u64::MAX).elapsed(at(i64::MIN), at(i64::MAX)));
    assert!(every(1).elapsed(at(i64::MAX - 60_000), at(i64::MAX)));
    assert!(!every(1).elapsed(at(i64::MAX - 59_999), at(i64::MAX)));
}

#[test]
fn loop_begins_with_a_fetch() {
    let s = Scheduler::new(every(60));
    assert_eq!(*s.phase(), Phase::Fetching);
    assert_eq!(s.action(), Action::Fetch);
    assert_eq!(s.interval(), every(60));
    assert!(!s.is_stopped());
}

#[test]
fn reply_leads_to_setting_the_clock() {
    let s = Scheduler::new(every(60)).step(Event::Reply(REPLY.to_string()));
    assert_eq!(*s.phase(), Phase::Applying(at(SYNCED_AT)));
    assert_eq!(s.action(), Action::SetClock(at(SYNCED_AT)));
}

#[test]
fn clock_set_leads_to_sleep() {
    let s = asleep(60);
    assert_eq!(*s.phase(), Phase::Sleeping(at(SYNCED_AT)));
    assert_eq!(s.action(), Action::Wait(POLL_MILLIS));
    assert_eq!(s.interval(), every(60));
}

#[test]
fn waits_are_a_second_at_most() {
    assert_eq!(POLL_MILLIS, 1000);
    assert_eq!(asleep(u64::MAX).action(), Action::Wait(1000));
}

#[test]
fn next_sync_comes_one_interval_after_the_synced_instant() {
    let due = SYNCED_AT + 60 * 60_000;
    let s = asleep(60);
    let early = s.clone().step(woke(due - 1, LifecycleSignal::Nothing));
    assert_eq!(*early.phase(), Phase::Sleeping(at(SYNCED_AT)));
    assert_eq!(early.action(), Action::Wait(POLL_MILLIS));
    let on_time = early.step(woke(due, LifecycleSignal::Nothing));
    assert_eq!(*on_time.phase(), Phase::Fetching);
    assert_eq!(on_time.action(), Action::Fetch);
    let late = s.step(woke(due + 5_000_000, LifecycleSignal::Nothing));
    assert_eq!(*late.phase(), Phase::Fetching);
}

#[test]
fn sleep_goes_on_while_the_clock_reads_before_the_synced_instant() {
    let s = asleep(1).step(woke(SYNCED_AT - 10_000_000, LifecycleSignal::Nothing));
    assert_eq!(*s.phase(), Phase::Sleeping(at(SYNCED_AT)));
}

#[test]
fn stop_request_ends_the_sleep_at_once() {
    let s = asleep(60).step(woke(SYNCED_AT + 1000, LifecycleSignal::StopRequested));
    assert_eq!(*s.phase(), Phase::Stopped(StopReason::Requested));
    assert_eq!(s.action(), Action::Exit(StopReason::Requested));
    assert!(s.is_stopped());
}

#[test]
fn closed_channel_ends_the_sleep_at_once() {
    let s = asleep(60).step(woke(SYNCED_AT + 1000, LifecycleSignal::ChannelClosed));
    assert_eq!(*s.phase(), Phase::Stopped(StopReason::ChannelClosed));
    assert_eq!(s.action(), Action::Exit(StopReason::ChannelClosed));
}

#[test]
fn stop_request_wins_over_a_due_sync() {
    let s = asleep(1).step(woke(SYNCED_AT + 60_000, LifecycleSignal::StopRequested));
    assert_eq!(*s.phase(), Phase::Stopped(StopReason::Requested));
}

#[test]
fn failed_fetch_ends_the_loop() {
    let s = Scheduler::new(every(60)).step(Event::FetchFailed);
    assert_eq!(*s.phase(), Phase::Stopped(StopReason::Failed(SyncError::Network)));
    assert_eq!(s.action(), Action::Exit(StopReason::Failed(SyncError::Network)));
}

#[test]
fn malformed_reply_ends_the_loop() {
    let s = Scheduler::new(every(60)).step(Event::Reply("52 24-06-01 14:23:05 50 0 0".to_string()));
    assert_eq!(*s.phase(), Phase::Stopped(StopReason::Failed(SyncError::Format)));
    let s = Scheduler::new(every(60)).step(Event::Reply(String::new()));
    assert_eq!(*s.phase(), Phase::Stopped(StopReason::Failed(SyncError::Format)));
}

#[test]
fn refused_clock_ends_the_loop() {
    let s = Scheduler::new(every(60)).step(Event::Reply(REPLY.to_string())).step(Event::ClockDenied);
    assert_eq!(*s.phase(), Phase::Stopped(StopReason::Failed(SyncError::Permission)));
}

#[test]
fn failed_clock_ends_the_loop_with_the_words_of_the_platform() {
    let words = "Invalid argument (os error 22)";
    let s = Scheduler::new(every(60))
        .step(Event::Reply(REPLY.to_string()))
        .step(Event::ClockFailed(words.to_string()));
    let error = SyncError::Platform(words.to_string());
    assert_eq!(*s.phase(), Phase::Stopped(StopReason::Failed(error.clone())));
    assert_eq!(s.action(), Action::Exit(StopReason::Failed(error.clone())));
    assert_eq!(error.message(), words);
    assert!(s.is_stopped());
}

#[test]
fn refusal_and_failure_of_the_clock_are_told_apart() {
    let applying = Scheduler::new(every(60)).step(Event::Reply(REPLY.to_string()));
    let denied = applying.clone().step(Event::ClockDenied);
    let failed = applying.step(Event::ClockFailed(String::new()));
    assert_ne!(denied.action(), failed.action());
    assert_eq!(denied.action(), Action::Exit(StopReason::Failed(SyncError::Permission)));
    assert_eq!(failed.action(), Action::Exit(StopReason::Failed(SyncError::Platform(String::new()))));
    assert_eq!(SyncError::Platform(String::new()).message(), "");
}

#[test]
fn ended_loop_stays_ended() {
    let s = Scheduler::new(every(60)).step(Event::FetchFailed);
    let events = [
        Event::FetchFailed,
        Event::Reply(REPLY.to_string()),
        Event::ClockSet,
        Event::ClockDenied,
        Event::ClockFailed("no".to_string()),
        Event::Received(REPLY.as_bytes().to_vec()),
        woke(i64::MAX, LifecycleSignal::Nothing),
        woke(0, LifecycleSignal::StopRequested),
    ];
    for event in events {
        assert_eq!(s.clone().step(event), s);
    }
}

#[test]
fn events_that_answer_another_action_change_nothing() {
    let fetching = Scheduler::new(every(60));
    assert_eq!(fetching.clone().step(Event::ClockSet), fetching);
    assert_eq!(fetching.clone().step(Event::ClockDenied), fetching);
    assert_eq!(fetching.clone().step(Event::ClockFailed("no".to_string())), fetching);
    assert_eq!(fetching.clone().step(woke(i64::MAX, LifecycleSignal::StopRequested)), fetching);
    let applying = fetching.step(Event::Reply(REPLY.to_string()));
    assert_eq!(applying.clone().step(Event::FetchFailed), applying);
    assert_eq!(applying.clone().step(Event::Reply(REPLY.to_string())), applying);
    assert_eq!(applying.clone().step(woke(i64::MAX, LifecycleSignal::StopRequested)), applying);
    let sleeping = applying.step(Event::ClockSet);
    assert_eq!(sleeping.clone().step(Event::FetchFailed), sleeping);
    assert_eq!(sleeping.clone().step(Event::ClockSet), sleeping);
    assert_eq!(sleeping.clone().step(Event::ClockFailed("no".to_string())), sleeping);
    assert_eq!(sleeping.clone().step(Event::Reply(String::new())), sleeping);
}

#[test]
fn second_round_sleeps_from_the_second_synced_instant() {
    let first_due = SYNCED_AT + 60_000;
    let s = asleep(1).step(woke(first_due + 30_000, LifecycleSignal::Nothing));
    assert_eq!(s.action(), Action::Fetch);
    let s = s.step(Event::Reply("52 24-06-01 14:24:05 50 0 0 200.0 UTC(NIST) *".to_string()));
    let second = SYNCED_AT + 60_000 + 77;
    assert_eq!(s.action(), Action::SetClock(at(second)));
    let s = s.step(Event::ClockSet);
    let s = s.step(woke(second + 59_999, LifecycleSignal::Nothing));
    assert_eq!(*s.phase(), Phase::Sleeping(at(second)));
    let s = s.step(woke(second + 60_000, LifecycleSignal::Nothing));
    assert_eq!(*s.phase(), Phase::Fetching);
}

#[test]
fn each_failure_has_its_message() {
    assert_eq!(SyncError::Network.message(), "Error reaching the time server");
    assert_eq!(SyncError::Format.message(), "Error reading the time server's reply");
    assert_eq!(SyncError::Permission.message(), "Error setting system time, check your permissions.");
    assert_eq!(SyncError::Platform("Device busy".to_string()).message(), "Device busy");
}

#[test]
fn received_bytes_lead_to_setting_the_clock() {
    let s = Scheduler::new(every(60)).step(Event::Received(REPLY.as_bytes().to_vec()));
    assert_eq!(s.action(), Action::SetClock(at(SYNCED_AT)));
    let s = Scheduler::new(every(60)).step(Event::Received(vec![0xff, 0x20, 0x31]));
    assert_eq!(*s.phase(), Phase::Stopped(StopReason::Failed(SyncError::Format)));
    let sleeping = asleep(60);
    assert_eq!(sleeping.clone().step(Event::Received(REPLY.as_bytes().to_vec())), sleeping);
}

#[test]
fn clones_are_equal() {
    let stopped = Scheduler::new(every(7))
        .step(Event::Reply(REPLY.to_string()))
        .step(Event::ClockFailed("words".to_string()));
    assert_eq!(stopped.clone(), stopped);
    assert_eq!(stopped.phase().clone(), Phase::Stopped(StopReason::Failed(SyncError::Platform("words".to_string()))));
    assert_eq!(asleep(7).clone(), asleep(7));
}

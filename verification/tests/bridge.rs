use bevy_tokio_tasks::clock::TickClock;
use bevy_tokio_tasks::lifecycle::after_reply;
use bevy_tokio_tasks::lifecycle::after_submit;
use bevy_tokio_tasks::lifecycle::ReplyStatus;
use bevy_tokio_tasks::lifecycle::SubmitStatus;
use bevy_tokio_tasks::pump::pump_begin;
use bevy_tokio_tasks::queue::CallbackLedger;
use bevy_tokio_tasks::sleep::after_signal;
use bevy_tokio_tasks::sleep::SignalOutcome;
use bevy_tokio_tasks::sleep::SleepPoll;
use bevy_tokio_tasks::sleep::SleepWait;

#[test]
fn fresh_clock_starts_at_zero() {
    let (clock, _rx) = TickClock::new();
    assert_eq!(clock.current(), 0);
}

#[test]
fn advance_counts_each_tick() {
    let (mut clock, _rx) = TickClock::new();
    assert_eq!(clock.advance(), 1);
    assert_eq!(clock.advance(), 2);
    assert_eq!(clock.advance(), 3);
    assert_eq!(clock.current(), 3);
}

#[test]
fn shared_counter_tracks_advances() {
    let (mut clock, rx) = TickClock::new();
    let handle = clock.make_handle(&rx);
    assert_eq!(handle.current_tick(), 0);
    clock.advance();
    clock.advance();
    assert_eq!(handle.current_tick(), 2);
    assert_eq!(clock.current(), 2);
}

#[test]
fn duplicated_handle_reads_same_counter() {
    let (mut clock, rx) = TickClock::new();
    let handle = clock.make_handle(&rx);
    let twin = handle.duplicate();
    clock.advance();
    assert_eq!(handle.current_tick(), 1);
    assert_eq!(twin.current_tick(), 1);
}

#[test]
fn zero_sleep_completes_at_once() {
    let wait = SleepWait::begin(5, 0);
    assert_eq!(wait.target, 5);
    assert_eq!(wait.poll(5), SleepPoll::Finished);
}

#[test]
fn sleep_completes_exactly_at_target() {
    let wait = SleepWait::begin(5, 3);
    assert_eq!(wait.target, 8);
    assert_eq!(wait.poll(5), SleepPoll::AwaitSignal);
    assert_eq!(wait.poll(6), SleepPoll::AwaitSignal);
    assert_eq!(wait.poll(7), SleepPoll::AwaitSignal);
    assert_eq!(wait.poll(8), SleepPoll::Finished);
    assert_eq!(wait.poll(9), SleepPoll::Finished);
}

#[test]
fn sleep_target_wraps_at_counter_width() {
    let wait = SleepWait::begin(usize::MAX, 2);
    assert_eq!(wait.target, 1);
}

#[test]
fn independent_sleepers_wake_at_own_ticks() {
    let quick = SleepWait::begin(10, 2);
    let slow = SleepWait::begin(10, 5);
    assert_eq!(quick.poll(11), SleepPoll::AwaitSignal);
    assert_eq!(slow.poll(11), SleepPoll::AwaitSignal);
    assert_eq!(quick.poll(12), SleepPoll::Finished);
    assert_eq!(slow.poll(12), SleepPoll::AwaitSignal);
    assert_eq!(slow.poll(14), SleepPoll::AwaitSignal);
    assert_eq!(quick.poll(15), SleepPoll::Finished);
    assert_eq!(slow.poll(15), SleepPoll::Finished);
}

#[test]
fn signal_outcomes_follow_channel_state() {
    assert_eq!(after_signal(true), SignalOutcome::Recheck);
    assert_eq!(after_signal(false), SignalOutcome::Cancelled);
}

#[test]
fn lifecycle_outcomes_follow_channel_state() {
    assert_eq!(after_submit(true), SubmitStatus::Queued);
    assert_eq!(after_submit(false), SubmitStatus::HostGone);
    assert_eq!(after_reply(true), ReplyStatus::Delivered);
    assert_eq!(after_reply(false), ReplyStatus::HostGone);
}

#[test]
fn planned_sleep_uses_current_reading() {
    let (mut clock, rx) = TickClock::new();
    let handle = clock.make_handle(&rx);
    clock.advance();
    clock.advance();
    let (start, wait) = handle.plan_sleep(3);
    assert_eq!(start, 2);
    assert_eq!(wait.target, 5);
    let (now, poll) = handle.check_sleep(&wait);
    assert_eq!(now, 2);
    assert_eq!(poll, SleepPoll::AwaitSignal);
    clock.advance();
    clock.advance();
    clock.advance();
    let (now, poll) = handle.check_sleep(&wait);
    assert_eq!(now, 5);
    assert_eq!(poll, SleepPoll::Finished);
}

#[test]
fn advance_wakes_waiting_receiver() {
    let rt = tokio::runtime::Builder::new_current_thread()
        .build()
        .unwrap();
    let (mut clock, rx) = TickClock::new();
    let mut handle = clock.make_handle(&rx);
    clock.advance();
    let woke = rt.block_on(handle.signal.changed());
    assert!(woke.is_ok());
}

#[test]
fn teardown_wakes_sleeping_receiver() {
    let rt = tokio::runtime::Builder::new_current_thread()
        .build()
        .unwrap();
    let (clock, rx) = TickClock::new();
    let mut handle = clock.make_handle(&rx);
    drop(rx);
    drop(clock);
    let woke = rt.block_on(handle.signal.changed());
    assert!(woke.is_err());
    assert_eq!(after_signal(woke.is_ok()), SignalOutcome::Cancelled);
}

#[test]
fn drain_returns_batch_in_submission_order() {
    let mut ledger = CallbackLedger::new();
    assert_eq!(ledger.submit(), 0);
    assert_eq!(ledger.submit(), 1);
    assert_eq!(ledger.submit(), 2);
    let batch = ledger.begin_drain();
    assert_eq!(batch, vec![0, 1, 2]);
    let empty = ledger.begin_drain();
    assert!(empty.is_empty());
}

#[test]
fn submission_during_drain_defers() {
    let mut ledger = CallbackLedger::new();
    ledger.submit();
    ledger.submit();
    let batch = ledger.begin_drain();
    assert_eq!(batch, vec![0, 1]);
    let late = ledger.submit();
    assert_eq!(late, 2);
    assert!(!batch.contains(&late));
    let next_batch = ledger.begin_drain();
    assert_eq!(next_batch, vec![2]);
}

#[test]
fn pump_begin_advances_then_reports_tick() {
    let rt = tokio::runtime::Builder::new_current_thread()
        .build()
        .unwrap();
    let (mut clock, rx) = TickClock::new();
    let handle = clock.make_handle(&rx);
    assert_eq!(pump_begin(&mut clock, &rt), 1);
    assert_eq!(pump_begin(&mut clock, &rt), 2);
    assert_eq!(clock.current(), 2);
    assert_eq!(handle.current_tick(), 2);
}

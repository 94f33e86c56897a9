use keymatrix::scheduler::Command;
use keymatrix::scheduler::Event;
use keymatrix::scheduler::SchedPhase;
use keymatrix::scheduler::Scheduler;
use keymatrix::timer::CountdownTimer;
use keymatrix::transport::ReadOutcome;
use keymatrix::transport::SubmitOutcome;
use keymatrix::transport::TickOutcome;

#[test]
fn both_gates_fire_once_when_both_timers_expire() {
    let mut s = Scheduler::new();
    let mut commands = Vec::new();
    commands.push(s.step(Event::TimersChecked { poll_expired: true, tick_expired: true }));
    commands.push(s.step(Event::SubmitDone { outcome: SubmitOutcome::Accepted }));
    commands.push(s.step(Event::TickDone { outcome: TickOutcome::Completed }));
    commands.push(s.step(Event::PollDone { activity: false }));
    assert_eq!(
        commands,
        vec![
            Command::ScanAndSubmit,
            Command::TickDevice,
            Command::PollTransport,
            Command::CheckTimers,
        ]
    );
    assert_eq!(s.phase, SchedPhase::Idle);
}

#[test]
fn only_tick_gate_fires_when_only_its_timer_expires() {
    let mut s = Scheduler::new();
    let first = s.step(Event::TimersChecked { poll_expired: false, tick_expired: true });
    assert_eq!(first, Command::TickDevice);
    let second = s.step(Event::TickDone { outcome: TickOutcome::Completed });
    assert_eq!(second, Command::PollTransport);
}

#[test]
fn no_gate_fires_when_no_timer_expires() {
    let mut s = Scheduler::new();
    let first = s.step(Event::TimersChecked { poll_expired: false, tick_expired: false });
    assert_eq!(first, Command::PollTransport);
    let second = s.step(Event::PollDone { activity: false });
    assert_eq!(second, Command::CheckTimers);
    assert_eq!(s.phase, SchedPhase::Idle);
}

#[test]
fn backpressure_and_duplicate_submissions_are_swallowed() {
    for outcome in [SubmitOutcome::Backpressure, SubmitOutcome::Duplicate, SubmitOutcome::Accepted]
    {
        let mut s = Scheduler::new();
        s.step(Event::TimersChecked { poll_expired: true, tick_expired: false });
        let cmd = s.step(Event::SubmitDone { outcome });
        assert_eq!(cmd, Command::PollTransport);
        assert_ne!(s.phase, SchedPhase::Halted);
    }
}

#[test]
fn fatal_submission_halts_the_loop() {
    let mut s = Scheduler::new();
    s.step(Event::TimersChecked { poll_expired: true, tick_expired: true });
    let cmd = s.step(Event::SubmitDone { outcome: SubmitOutcome::Fatal });
    assert_eq!(cmd, Command::Halt);
    assert_eq!(s.phase, SchedPhase::Halted);
}

#[test]
fn tick_backpressure_is_swallowed_and_fatal_tick_halts() {
    let mut s = Scheduler::new();
    s.step(Event::TimersChecked { poll_expired: false, tick_expired: true });
    let cmd = s.step(Event::TickDone { outcome: TickOutcome::Backpressure });
    assert_eq!(cmd, Command::PollTransport);

    let mut halted = Scheduler::new();
    halted.step(Event::TimersChecked { poll_expired: false, tick_expired: true });
    let cmd = halted.step(Event::TickDone { outcome: TickOutcome::Fatal });
    assert_eq!(cmd, Command::Halt);
    assert_eq!(halted.phase, SchedPhase::Halted);
}

#[test]
fn fatal_read_halts_the_loop() {
    let mut s = Scheduler::new();
    s.step(Event::TimersChecked { poll_expired: false, tick_expired: false });
    s.step(Event::PollDone { activity: true });
    let cmd = s.step(Event::ReadDone { outcome: ReadOutcome::Fatal });
    assert_eq!(cmd, Command::Halt);
    assert_eq!(s.phase, SchedPhase::Halted);
}

#[test]
fn indicator_updates_only_on_an_inbound_report() {
    let mut s = Scheduler::new();
    assert!(!s.indicator);

    // a poll without activity leaves the indicator untouched
    s.step(Event::TimersChecked { poll_expired: false, tick_expired: false });
    s.step(Event::PollDone { activity: false });
    assert!(!s.indicator);

    // a read that found nothing available leaves it untouched too
    s.step(Event::TimersChecked { poll_expired: false, tick_expired: false });
    s.step(Event::PollDone { activity: true });
    let cmd = s.step(Event::ReadDone { outcome: ReadOutcome::NotAvailable });
    assert_eq!(cmd, Command::CheckTimers);
    assert!(!s.indicator);

    // an inbound report sets it and drives the output to match
    s.step(Event::TimersChecked { poll_expired: false, tick_expired: false });
    s.step(Event::PollDone { activity: true });
    let cmd = s.step(Event::ReadDone { outcome: ReadOutcome::Report { caps_lock: true } });
    assert_eq!(cmd, Command::DriveIndicator { caps_lock: true });
    assert!(s.indicator);
    let cmd = s.step(Event::IndicatorDriven);
    assert_eq!(cmd, Command::CheckTimers);
    assert!(s.indicator);
}

#[test]
fn countdown_timer_fires_on_expiry_and_restarts_from_firing_time() {
    let mut timer = CountdownTimer::new(10, 0);
    assert!(!timer.poll(5));
    assert!(!timer.poll(9));
    assert!(timer.poll(10));
    // restarted relative to the firing time
    assert!(!timer.poll(19));
    assert!(timer.poll(25));
    // a late poll restarts from the poll instant, not the missed deadline
    assert!(!timer.poll(34));
    assert!(timer.poll(35));
}

#[test]
fn scheduler_gates_follow_two_independent_timers() {
    // poll period 10, tick period 5: over 20 time units stepped by 5 the
    // scan gate fires twice and the tick gate four times
    let mut poll_timer = CountdownTimer::new(10, 0);
    let mut tick_timer = CountdownTimer::new(5, 0);
    let mut s = Scheduler::new();
    let mut scans = 0;
    let mut ticks = 0;
    for step in 1..=4u64 {
        let now = step * 5;
        let mut cmd = s.step(Event::TimersChecked {
            poll_expired: poll_timer.poll(now),
            tick_expired: tick_timer.poll(now),
        });
        loop {
            cmd = match cmd {
                Command::ScanAndSubmit => {
                    scans += 1;
                    s.step(Event::SubmitDone { outcome: SubmitOutcome::Accepted })
                }
                Command::TickDevice => {
                    ticks += 1;
                    s.step(Event::TickDone { outcome: TickOutcome::Completed })
                }
                Command::PollTransport => s.step(Event::PollDone { activity: false }),
                Command::CheckTimers => break,
                other => panic!("unexpected command {other:?}"),
            };
        }
    }
    assert_eq!(scans, 2);
    assert_eq!(ticks, 4);
}

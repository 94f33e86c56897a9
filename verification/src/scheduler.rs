//! The report scheduler: the decision core of the cooperative polling loop.
//!
//! Each loop iteration coordinates three independently gated concerns, in a
//! fixed order: scan-and-submit when the input-poll timer has expired, a
//! device tick when the device-tick timer has expired, and unconditionally a
//! transport poll with an inbound read on activity.  The scheduler owns only
//! the decisions: it is driven by feeding it the observed `Event` for the
//! previous command and executing the `Command` it returns.

use vstd::prelude::*;
use crate::transport::ReadOutcome;
use crate::transport::SubmitOutcome;
use crate::transport::TickOutcome;

verus! {

/// Where the scheduler stands inside a loop iteration.
#[derive(Clone, Copy, PartialEq, Eq, Structural, Debug)]
pub enum SchedPhase {
    /// At the top of an iteration, waiting for the timer check.
    Idle,
    /// A scan-and-submit is in flight; `tick_pending` remembers that the
    /// device-tick timer also expired this iteration.
    AwaitSubmit { tick_pending: bool },
    /// A device tick is in flight.
    AwaitTick,
    /// A transport poll is in flight.
    AwaitPoll,
    /// An inbound read is in flight.
    AwaitRead,
    /// The physical indicator is being driven to the new state.
    AwaitIndicator,
    /// A fatal outcome halted the loop; no further event is accepted.
    Halted,
}

/// What the caller must do next on behalf of the scheduler.
#[derive(Clone, Copy, PartialEq, Eq, Structural, Debug)]
pub enum Command {
    /// Poll both countdown timers and report which expired.
    CheckTimers,
    /// Scan the matrix, map the grid and submit the key report.
    ScanAndSubmit,
    /// Tick the HID class's periodic state machine.
    TickDevice,
    /// Poll the USB device for transport-level activity.
    PollTransport,
    /// Attempt to read an inbound report.
    ReadInbound,
    /// Drive the physical indicator output to the given state.
    DriveIndicator { caps_lock: bool },
    /// Stop the loop; a fatal transport outcome was observed.
    Halt,
}

/// What the caller observed while carrying out the previous command.
#[derive(Clone, Copy, PartialEq, Eq, Structural, Debug)]
#[allow(inconsistent_fields)]
pub enum Event {
    /// Result of `CheckTimers`: which timers fired this iteration.
    TimersChecked { poll_expired: bool, tick_expired: bool },
    /// Result of `ScanAndSubmit`.
    SubmitDone { outcome: SubmitOutcome },
    /// Result of `TickDevice`.
    TickDone { outcome: TickOutcome },
    /// Result of `PollTransport`: whether transport-level work occurred.
    PollDone { activity: bool },
    /// Result of `ReadInbound`.
    ReadDone { outcome: ReadOutcome },
    /// Result of `DriveIndicator`: the output pin now matches.
    IndicatorDriven,
}

/// The scheduler state: the phase within the iteration and the indicator
/// state most recently received from the host.
#[derive(Clone, Copy, PartialEq, Eq, Structural, Debug)]
pub struct Scheduler {
    /// Position within the current loop iteration.
    pub phase: SchedPhase,
    /// Host-reported indicator (caps-lock) state, as last received.
    pub indicator: bool,
}

/// Which events a scheduler state is prepared to receive: exactly the reply
/// to the command it last issued.  A halted scheduler accepts none.
pub open spec fn accepts(s: Scheduler, ev: Event) -> bool {
    match s.phase {
        SchedPhase::Idle => ev is TimersChecked,
        SchedPhase::AwaitSubmit { .. } => ev is SubmitDone,
        SchedPhase::AwaitTick => ev is TickDone,
        SchedPhase::AwaitPoll => ev is PollDone,
        SchedPhase::AwaitRead => ev is ReadDone,
        SchedPhase::AwaitIndicator => ev is IndicatorDriven,
        SchedPhase::Halted => false,
    }
}

/// The transition function of the scheduler: the state after receiving
/// `ev`, paired with the command issued in response.
pub open spec fn step_spec(s: Scheduler, ev: Event) -> (Scheduler, Command) {
    match (s.phase, ev) {
        (SchedPhase::Idle, Event::TimersChecked { poll_expired, tick_expired }) => {
            if poll_expired {
                (
                    Scheduler {
                        phase: SchedPhase::AwaitSubmit { tick_pending: tick_expired },
                        ..s
                    },
                    Command::ScanAndSubmit,
                )
            } else if tick_expired {
                (Scheduler { phase: SchedPhase::AwaitTick, ..s }, Command::TickDevice)
            } else {
                (Scheduler { phase: SchedPhase::AwaitPoll, ..s }, Command::PollTransport)
            }
        },
        (SchedPhase::AwaitSubmit { tick_pending }, Event::SubmitDone { outcome }) => {
            if outcome is Fatal {
                (Scheduler { phase: SchedPhase::Halted, ..s }, Command::Halt)
            } else if tick_pending {
                (Scheduler { phase: SchedPhase::AwaitTick, ..s }, Command::TickDevice)
            } else {
                (Scheduler { phase: SchedPhase::AwaitPoll, ..s }, Command::PollTransport)
            }
        },
        (SchedPhase::AwaitTick, Event::TickDone { outcome }) => {
            if outcome is Fatal {
                (Scheduler { phase: SchedPhase::Halted, ..s }, Command::Halt)
            } else {
                (Scheduler { phase: SchedPhase::AwaitPoll, ..s }, Command::PollTransport)
            }
        },
        (SchedPhase::AwaitPoll, Event::PollDone { activity }) => {
            if activity {
                (Scheduler { phase: SchedPhase::AwaitRead, ..s }, Command::ReadInbound)
            } else {
                (Scheduler { phase: SchedPhase::Idle, ..s }, Command::CheckTimers)
            }
        },
        (SchedPhase::AwaitRead, Event::ReadDone { outcome }) => {
            match outcome {
                ReadOutcome::NotAvailable => {
                    (Scheduler { phase: SchedPhase::Idle, ..s }, Command::CheckTimers)
                },
                ReadOutcome::Report { caps_lock } => {
                    (
                        Scheduler { phase: SchedPhase::AwaitIndicator, indicator: caps_lock },
                        Command::DriveIndicator { caps_lock },
                    )
                },
                ReadOutcome::Fatal => {
                    (Scheduler { phase: SchedPhase::Halted, ..s }, Command::Halt)
                },
            }
        },
        (SchedPhase::AwaitIndicator, Event::IndicatorDriven) => {
            (Scheduler { phase: SchedPhase::Idle, ..s }, Command::CheckTimers)
        },
        _ => (s, Command::Halt),
    }
}

/// The state after receiving `ev`.
pub open spec fn next_state(s: Scheduler, ev: Event) -> Scheduler {
    step_spec(s, ev).0
}

/// The command issued in response to `ev`.
pub open spec fn command_for(s: Scheduler, ev: Event) -> Command {
    step_spec(s, ev).1
}

impl Scheduler {
    /// A scheduler at the top of its first iteration, with the indicator
    /// off, as the physical output starts.
    pub fn new() -> (s: Scheduler)
        ensures
            s.phase is Idle,
            s.indicator == false,
    {
        Scheduler { phase: SchedPhase::Idle, indicator: false }
    }

    /// Receives the outcome of the previous command and decides the next
    /// one, exactly as the transition function `step_spec` says.
    pub fn step(&mut self, ev: Event) -> (cmd: Command)
        requires
            accepts(*old(self), ev),
        ensures
            *final(self) == next_state(*old(self), ev),
            cmd == command_for(*old(self), ev),
    {
        match (self.phase, ev) {
            (SchedPhase::Idle, Event::TimersChecked { poll_expired, tick_expired }) => {
                if poll_expired {
                    self.phase = SchedPhase::AwaitSubmit { tick_pending: tick_expired };
                    Command::ScanAndSubmit
                } else if tick_expired {
                    self.phase = SchedPhase::AwaitTick;
                    Command::TickDevice
                } else {
                    self.phase = SchedPhase::AwaitPoll;
                    Command::PollTransport
                }
            },
            (SchedPhase::AwaitSubmit { tick_pending }, Event::SubmitDone { outcome }) => {
                match outcome {
                    SubmitOutcome::Fatal => {
                        self.phase = SchedPhase::Halted;
                        Command::Halt
                    },
                    _ => {
                        if tick_pending {
                            self.phase = SchedPhase::AwaitTick;
                            Command::TickDevice
                        } else {
                            self.phase = SchedPhase::AwaitPoll;
                            Command::PollTransport
                        }
                    },
                }
            },
            (SchedPhase::AwaitTick, Event::TickDone { outcome }) => {
                match outcome {
                    TickOutcome::Fatal => {
                        self.phase = SchedPhase::Halted;
                        Command::Halt
                    },
                    _ => {
                        self.phase = SchedPhase::AwaitPoll;
                        Command::PollTransport
                    },
                }
            },
            (SchedPhase::AwaitPoll, Event::PollDone { activity }) => {
                if activity {
                    self.phase = SchedPhase::AwaitRead;
                    Command::ReadInbound
                } else {
                    self.phase = SchedPhase::Idle;
                    Command::CheckTimers
                }
            },
            (SchedPhase::AwaitRead, Event::ReadDone { outcome }) => {
                match outcome {
                    ReadOutcome::NotAvailable => {
                        self.phase = SchedPhase::Idle;
                        Command::CheckTimers
                    },
                    ReadOutcome::Report { caps_lock } => {
                        self.indicator = caps_lock;
                        self.phase = SchedPhase::AwaitIndicator;
                        Command::DriveIndicator { caps_lock }
                    },
                    ReadOutcome::Fatal => {
                        self.phase = SchedPhase::Halted;
                        Command::Halt
                    },
                }
            },
            (SchedPhase::AwaitIndicator, Event::IndicatorDriven) => {
                self.phase = SchedPhase::Idle;
                Command::CheckTimers
            },
            _ => {
                proof {
                    assert(false);
                }
                Command::Halt
            },
        }
    }
}

/// An event is benign when it carries no fatal outcome: accepted reports,
/// backpressure, duplicate suppression, a completed or contended tick, an
/// inbound report or none available, and all timer or poll observations.
pub open spec fn benign_event(ev: Event) -> bool {
    match ev {
        Event::SubmitDone { outcome } => !(outcome is Fatal),
        Event::TickDone { outcome } => !(outcome is Fatal),
        Event::ReadDone { outcome } => !(outcome is Fatal),
        _ => true,
    }
}

/// Position of a phase within a loop iteration.  The three gated concerns
/// come in a fixed order: scan-and-submit, then the device tick, then the
/// transport poll with its inbound read and indicator update.
pub open spec fn iteration_stage(phase: SchedPhase) -> int {
    match phase {
        SchedPhase::Idle => 0,
        SchedPhase::AwaitSubmit { .. } => 1,
        SchedPhase::AwaitTick => 2,
        SchedPhase::AwaitPoll => 3,
        SchedPhase::AwaitRead => 4,
        SchedPhase::AwaitIndicator => 5,
        SchedPhase::Halted => 6,
    }
}

/// Within one loop iteration the scheduler only moves forward through the
/// stages — scan-and-submit can only come before the tick, which can only
/// come before the transport poll and read — until a benign event closes
/// the iteration by returning to the top.
pub proof fn lemma_iteration_order(s: Scheduler, ev: Event)
    requires
        accepts(s, ev),
        benign_event(ev),
    ensures
        iteration_stage(next_state(s, ev).phase) > iteration_stage(s.phase) || (next_state(
            s,
            ev,
        ).phase is Idle && command_for(s, ev) == Command::CheckTimers),
{
}

/// The state after feeding a whole sequence of events, first to last.
pub open spec fn run(s: Scheduler, evs: Seq<Event>) -> Scheduler
    decreases evs.len(),
{
    if evs.len() == 0 {
        s
    } else {
        next_state(run(s, evs.drop_last()), evs.last())
    }
}

/// Whether every event of the sequence arrives in a state that accepts it.
pub open spec fn valid_run(s: Scheduler, evs: Seq<Event>) -> bool
    decreases evs.len(),
{
    evs.len() == 0 || (valid_run(s, evs.drop_last()) && accepts(
        run(s, evs.drop_last()),
        evs.last(),
    ))
}

/// The commands issued along a run, in order.
pub open spec fn commands_of(s: Scheduler, evs: Seq<Event>) -> Seq<Command>
    decreases evs.len(),
{
    if evs.len() == 0 {
        Seq::empty()
    } else {
        commands_of(s, evs.drop_last()).push(command_for(run(s, evs.drop_last()), evs.last()))
    }
}

/// Whether no event of the sequence carries a fatal outcome.
pub open spec fn all_benign(evs: Seq<Event>) -> bool {
    forall|i: int| 0 <= i < evs.len() ==> benign_event(#[trigger] evs[i])
}

/// How often a command occurs in a sequence of commands.
pub open spec fn count_commands(cmds: Seq<Command>, which: Command) -> int
    decreases cmds.len(),
{
    if cmds.len() == 0 {
        0
    } else {
        count_commands(cmds.drop_last(), which) + if cmds.last() == which {
            1int
        } else {
            0
        }
    }
}

/// How many timer checks of the sequence reported the input-poll timer
/// expired.
pub open spec fn count_poll_expiries(evs: Seq<Event>) -> int
    decreases evs.len(),
{
    if evs.len() == 0 {
        0
    } else {
        count_poll_expiries(evs.drop_last()) + (match evs.last() {
            Event::TimersChecked { poll_expired, .. } => if poll_expired {
                1int
            } else {
                0
            },
            _ => 0,
        })
    }
}

/// How many timer checks of the sequence reported the device-tick timer
/// expired.
pub open spec fn count_tick_expiries(evs: Seq<Event>) -> int
    decreases evs.len(),
{
    if evs.len() == 0 {
        0
    } else {
        count_tick_expiries(evs.drop_last()) + (match evs.last() {
            Event::TimersChecked { tick_expired, .. } => if tick_expired {
                1int
            } else {
                0
            },
            _ => 0,
        })
    }
}

/// A device tick still owed in this state: one while a submission is in
/// flight with the tick gate already expired, none otherwise.
pub open spec fn tick_owed(s: Scheduler) -> int {
    match s.phase {
        SchedPhase::AwaitSubmit { tick_pending } => if tick_pending {
            1int
        } else {
            0
        },
        _ => 0,
    }
}

proof fn lemma_all_benign_drop_last(evs: Seq<Event>)
    requires
        evs.len() > 0,
        all_benign(evs),
    ensures
        all_benign(evs.drop_last()),
        benign_event(evs.last()),
{
    assert forall|i: int| 0 <= i < evs.drop_last().len() implies benign_event(
        #[trigger] evs.drop_last()[i],
    ) by {
        assert(evs.drop_last()[i] == evs[i]);
    }
    assert(evs.last() == evs[evs.len() - 1]);
}

/// Over any valid, fatal-free sequence of events, the scan-and-submit
/// action is commanded exactly once per input-poll timer expiry, and the
/// device tick exactly once per device-tick timer expiry — counting as
/// pending the one tick owed while a submission is still in flight —
/// regardless of the relative phase of the two timers.
pub proof fn lemma_gates_fire_once_per_expiry(s: Scheduler, evs: Seq<Event>)
    requires
        valid_run(s, evs),
        all_benign(evs),
    ensures
        count_commands(commands_of(s, evs), Command::ScanAndSubmit) == count_poll_expiries(evs),
        count_commands(commands_of(s, evs), Command::TickDevice) + tick_owed(run(s, evs))
            == count_tick_expiries(evs) + tick_owed(s),
    decreases evs.len(),
{
    if evs.len() > 0 {
        lemma_all_benign_drop_last(evs);
        lemma_gates_fire_once_per_expiry(s, evs.drop_last());
        let prev = commands_of(s, evs.drop_last());
        let cmd = command_for(run(s, evs.drop_last()), evs.last());
        assert(prev.push(cmd).drop_last() =~= prev);
        assert(count_commands(prev.push(cmd), Command::ScanAndSubmit) == count_commands(
            prev,
            Command::ScanAndSubmit,
        ) + if cmd == Command::ScanAndSubmit {
            1int
        } else {
            0
        });
        assert(count_commands(prev.push(cmd), Command::TickDevice) == count_commands(
            prev,
            Command::TickDevice,
        ) + if cmd == Command::TickDevice {
            1int
        } else {
            0
        });
    }
}

/// A run that starts and ends at the top of an iteration commands exactly
/// one scan-and-submit per input-poll expiry and one device tick per
/// device-tick expiry.
pub proof fn lemma_idle_run_counts(s: Scheduler, evs: Seq<Event>)
    requires
        valid_run(s, evs),
        all_benign(evs),
        s.phase is Idle,
        run(s, evs).phase is Idle,
    ensures
        count_commands(commands_of(s, evs), Command::ScanAndSubmit) == count_poll_expiries(evs),
        count_commands(commands_of(s, evs), Command::TickDevice) == count_tick_expiries(evs),
{
    lemma_gates_fire_once_per_expiry(s, evs);
}

/// Benign outcomes never halt the loop; every fatal outcome halts it at
/// once.
pub proof fn lemma_halt_exactly_on_fatal(s: Scheduler, ev: Event)
    requires
        accepts(s, ev),
    ensures
        benign_event(ev) ==> !(next_state(s, ev).phase is Halted) && command_for(s, ev)
            != Command::Halt,
        !benign_event(ev) ==> next_state(s, ev).phase is Halted && command_for(s, ev)
            == Command::Halt,
{
}

/// The indicator state follows inbound reports alone: a successful read
/// sets it to the host-sent value and drives the output to match, while
/// every other event — in particular a read that found nothing available —
/// leaves it unchanged.
pub proof fn lemma_indicator_follows_inbound_reports(s: Scheduler, ev: Event)
    requires
        accepts(s, ev),
    ensures
        next_state(s, ev).indicator == (match ev {
            Event::ReadDone { outcome: ReadOutcome::Report { caps_lock } } => caps_lock,
            _ => s.indicator,
        }),
        (match ev {
            Event::ReadDone { outcome: ReadOutcome::Report { caps_lock } } => command_for(s, ev)
                == (Command::DriveIndicator { caps_lock }),
            _ => !(command_for(s, ev) is DriveIndicator),
        }),
{
}

} // verus!

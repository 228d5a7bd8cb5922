use vstd::prelude::*;
use vstd::string::StringExecFns;

verus! {

use crate::QUIET_PERIOD_MS;

/// Why a restart pass was entered.
#[derive(Clone, Copy, Debug, PartialEq, Eq, Structural)]
pub enum Trigger {
    /// A burst of file changes settled.
    FileChange,
    /// The child process ended without being asked to.
    ChildExit,
}

/// What the control loop knows about its child process.
#[derive(Clone, Copy, Debug, PartialEq, Eq, Structural)]
pub enum ChildStatus {
    /// No child exists: none was launched yet, or the last one was reaped.
    Absent,
    /// A child was launched and has not been observed to end.
    Alive,
    /// The child was observed to have ended on its own; it still has to be reaped.
    Exited,
}

/// Where the control loop stands.  Each phase has exactly one outstanding
/// request to the outside world; the matching [`Action`] is given by
/// [`Supervisor::action`].
#[derive(Clone, Copy, Debug, PartialEq, Eq, Structural)]
pub enum Phase {
    /// Starting up: the initial watch of the source root was requested.
    StartingWatch,
    /// Starting up: the first launch of the child was requested.
    StartingChild,
    /// Steady state: waiting for a change event with a bounded wait.
    Running,
    /// The bounded wait elapsed; a liveness poll of the child was requested.
    CheckingChild,
    /// A burst of changes is in progress; the quiet-period wait was requested.
    /// The window closes at `until_ms` if no further event arrives.
    Debouncing { until_ms: u64 },
    /// The quiet period elapsed; one last liveness poll decides whether the
    /// restart answers to the settled burst or to an unsolicited exit.
    CheckingAfterQuiet,
    /// Restarting: the watcher pause was requested.
    PausingWatch { trigger: Trigger },
    /// Restarting: best-effort kill and unconditional reap were requested.
    StoppingChild { trigger: Trigger },
    /// Restarting: the launch of the new child was requested.
    RestartingChild { trigger: Trigger },
    /// Restarting: the settle delay was requested.
    SettleWait,
    /// Restarting: the watcher resume was requested.
    ResumingWatch,
    /// A fatal error was met; the loop must stop and report it.
    Failed,
}

/// The one outside operation the loop must perform next.  The loop performs
/// it and feeds the outcome back as an [`Event`].
#[derive(Clone, Copy, Debug, PartialEq, Eq, Structural)]
pub enum Action {
    /// Wait for the next delivered change, at most [`crate::POLL_INTERVAL_MS`].
    AwaitChange,
    /// Wait for the next delivered change, at most [`crate::QUIET_PERIOD_MS`].
    AwaitQuiet,
    /// Ask, without blocking, whether the child has ended on its own.
    PollChild,
    /// Stop delivery of change events for the watched root.
    Unwatch,
    /// Begin or resume delivery of change events for the watched root.
    Watch,
    /// Send a kill signal (failure is acceptable), then wait until the child
    /// is reaped, whether or not the signal went through.
    StopChild,
    /// Launch the child with [`Supervisor::launch_args`].
    StartChild,
    /// Sleep for [`crate::SETTLE_DELAY_MS`].
    SettleDelay,
    /// Leave the loop; [`Supervisor::error`] says why.
    Stop,
}

/// The outcome of the requested [`Action`], reported back to the machine.
#[derive(Debug, PartialEq, Eq)]
pub enum Event {
    /// One raw change notification was delivered.
    Change,
    /// The delivery mechanism handed over an error value.
    WatcherError(String),
    /// The bounded wait elapsed with nothing delivered.
    TimedOut,
    /// The delivery channel closed.
    Disconnected,
    /// Poll outcome: the child already ended on its own.
    ChildExited,
    /// Poll outcome: the child is still running.
    ChildAlive,
    /// Poll outcome: the child's status could not be read.
    PollFailed(String),
    /// Delivery for the watched root was stopped.
    Unwatched,
    /// Delivery for the watched root could not be stopped.
    UnwatchFailed(String),
    /// Delivery for the watched root was started or resumed.
    Watched,
    /// Delivery for the watched root could not be started.
    WatchFailed(String),
    /// The old child was reaped.
    ChildStopped,
    /// A new child was launched.
    ChildStarted,
    /// A child could not be launched.
    StartFailed(String),
    /// The settle delay elapsed.
    Settled,
}

/// A fatal error of dev mode: a broken environment that a retry cannot fix.
#[derive(Debug, PartialEq, Eq)]
pub enum DevError {
    /// No project descriptor was found.
    NotAProject,
    /// The descriptor is not a TOML table with a string `template` entry.
    BadDescriptor,
    /// The descriptor names a template for which dev mode is not offered.
    WrongTemplate(String),
    /// The watch could not be started or resumed.
    WatchFailed(String),
    /// The watch could not be paused.
    UnwatchFailed(String),
    /// The watcher delivered an error value while running.
    WatcherReport(String),
    /// The delivery channel closed while running.
    ChannelClosed,
    /// The delivery channel closed while a burst was being absorbed.
    DebounceChannelClosed,
    /// The child's status could not be read.
    PollFailed(String),
    /// A child could not be launched.
    SpawnFailed(String),
}

/// The file-change-triggered process supervisor of dev mode, as a state
/// machine.  The loop that owns it asks for [`Supervisor::action`], performs
/// that one outside operation, and reports the outcome through
/// [`Supervisor::step`]; every decision in between is made here.
pub struct Supervisor {
    /// Where the loop stands; decides the next action.
    pub phase: Phase,
    /// Whether change events are currently being delivered for the root.
    pub watcher_on: bool,
    /// What is known about the child process.
    pub child: ChildStatus,
    /// Whether the child is launched with the verbosity flag.
    pub verbose: bool,
    /// The fatal error, once the machine has failed.
    pub error: Option<DevError>,
}

impl Supervisor {
    /// The machine as dev mode starts it: nothing watched, no child, and the
    /// initial watch requested.
    pub open spec fn init_spec(verbose: bool) -> Supervisor {
        Supervisor {
            phase: Phase::StartingWatch,
            watcher_on: false,
            child: ChildStatus::Absent,
            verbose,
            error: None,
        }
    }

    pub fn new(verbose: bool) -> (s: Supervisor)
        ensures
            s == Supervisor::init_spec(verbose),
            s.inv(),
    {
        Supervisor {
            phase: Phase::StartingWatch,
            watcher_on: false,
            child: ChildStatus::Absent,
            verbose,
            error: None,
        }
    }

    /// The failed machine that reports `e`.
    pub open spec fn fail_spec(self, e: DevError) -> Supervisor {
        Supervisor { phase: Phase::Failed, error: Some(e), ..self }
    }

    /// The one outside operation owed in each phase.
    pub open spec fn action_spec(self) -> Action {
        match self.phase {
            Phase::StartingWatch => Action::Watch,
            Phase::StartingChild => Action::StartChild,
            Phase::Running => Action::AwaitChange,
            Phase::CheckingChild => Action::PollChild,
            Phase::Debouncing { .. } => Action::AwaitQuiet,
            Phase::CheckingAfterQuiet => Action::PollChild,
            Phase::PausingWatch { .. } => Action::Unwatch,
            Phase::StoppingChild { .. } => Action::StopChild,
            Phase::RestartingChild { .. } => Action::StartChild,
            Phase::SettleWait => Action::SettleDelay,
            Phase::ResumingWatch => Action::Watch,
            Phase::Failed => Action::Stop,
        }
    }

    pub fn action(&self) -> (a: Action)
        ensures
            a == self.action_spec(),
    {
        match self.phase {
            Phase::StartingWatch => Action::Watch,
            Phase::StartingChild => Action::StartChild,
            Phase::Running => Action::AwaitChange,
            Phase::CheckingChild => Action::PollChild,
            Phase::Debouncing { .. } => Action::AwaitQuiet,
            Phase::CheckingAfterQuiet => Action::PollChild,
            Phase::PausingWatch { .. } => Action::Unwatch,
            Phase::StoppingChild { .. } => Action::StopChild,
            Phase::RestartingChild { .. } => Action::StartChild,
            Phase::SettleWait => Action::SettleDelay,
            Phase::ResumingWatch => Action::Watch,
            Phase::Failed => Action::Stop,
        }
    }

    /// The whole transition relation: the machine after outcome `ev` is
    /// reported at time `now_ms` (milliseconds on the loop's clock).  An
    /// outcome that does not answer the outstanding action leaves the
    /// machine unchanged; in particular a change event delivered while the
    /// watch is paused is never acted on.
    pub open spec fn next_spec(self, now_ms: u64, ev: Event) -> Supervisor {
        match self.phase {
            Phase::StartingWatch => match ev {
                Event::Watched => Supervisor {
                    phase: Phase::StartingChild,
                    watcher_on: true,
                    ..self
                },
                Event::WatchFailed(e) => self.fail_spec(DevError::WatchFailed(e)),
                _ => self,
            },
            Phase::StartingChild => match ev {
                Event::ChildStarted => Supervisor {
                    phase: Phase::Running,
                    child: ChildStatus::Alive,
                    ..self
                },
                Event::StartFailed(e) => self.fail_spec(DevError::SpawnFailed(e)),
                _ => self,
            },
            Phase::Running => match ev {
                Event::Change => Supervisor {
                    phase: (Phase::Debouncing { until_ms: (now_ms + QUIET_PERIOD_MS) as u64 }),
                    ..self
                },
                Event::WatcherError(e) => self.fail_spec(DevError::WatcherReport(e)),
                Event::TimedOut => Supervisor { phase: Phase::CheckingChild, ..self },
                Event::Disconnected => self.fail_spec(DevError::ChannelClosed),
                _ => self,
            },
            Phase::CheckingChild => match ev {
                Event::ChildAlive => Supervisor { phase: Phase::Running, ..self },
                Event::ChildExited => Supervisor {
                    phase: (Phase::PausingWatch { trigger: Trigger::ChildExit }),
                    child: ChildStatus::Exited,
                    ..self
                },
                Event::PollFailed(e) => self.fail_spec(DevError::PollFailed(e)),
                _ => self,
            },
            Phase::Debouncing { .. } => match ev {
                Event::Change => Supervisor {
                    phase: (Phase::Debouncing { until_ms: (now_ms + QUIET_PERIOD_MS) as u64 }),
                    ..self
                },
                Event::WatcherError(_) => Supervisor {
                    phase: (Phase::Debouncing { until_ms: (now_ms + QUIET_PERIOD_MS) as u64 }),
                    ..self
                },
                Event::TimedOut => Supervisor { phase: Phase::CheckingAfterQuiet, ..self },
                Event::Disconnected => self.fail_spec(DevError::DebounceChannelClosed),
                _ => self,
            },
            Phase::CheckingAfterQuiet => match ev {
                Event::ChildExited => Supervisor {
                    phase: (Phase::PausingWatch { trigger: Trigger::ChildExit }),
                    child: ChildStatus::Exited,
                    ..self
                },
                Event::ChildAlive => Supervisor {
                    phase: (Phase::PausingWatch { trigger: Trigger::FileChange }),
                    ..self
                },
                Event::PollFailed(e) => self.fail_spec(DevError::PollFailed(e)),
                _ => self,
            },
            Phase::PausingWatch { trigger } => match ev {
                Event::Unwatched => Supervisor {
                    phase: (Phase::StoppingChild { trigger }),
                    watcher_on: false,
                    ..self
                },
                Event::UnwatchFailed(e) => self.fail_spec(DevError::UnwatchFailed(e)),
                _ => self,
            },
            Phase::StoppingChild { trigger } => match ev {
                Event::ChildStopped => Supervisor {
                    phase: (Phase::RestartingChild { trigger }),
                    child: ChildStatus::Absent,
                    ..self
                },
                _ => self,
            },
            Phase::RestartingChild { .. } => match ev {
                Event::ChildStarted => Supervisor {
                    phase: Phase::SettleWait,
                    child: ChildStatus::Alive,
                    ..self
                },
                Event::StartFailed(e) => self.fail_spec(DevError::SpawnFailed(e)),
                _ => self,
            },
            Phase::SettleWait => match ev {
                Event::Settled => Supervisor { phase: Phase::ResumingWatch, ..self },
                _ => self,
            },
            Phase::ResumingWatch => match ev {
                Event::Watched => Supervisor {
                    phase: Phase::Running,
                    watcher_on: true,
                    ..self
                },
                Event::WatchFailed(e) => self.fail_spec(DevError::WatchFailed(e)),
                _ => self,
            },
            Phase::Failed => self,
        }
    }

    /// Report the outcome of the outstanding action.  `now_ms` is the loop's
    /// clock in milliseconds; it only decides where a fresh debounce window
    /// closes.
    pub fn step(&mut self, now_ms: u64, ev: Event)
        requires
            now_ms <= u64::MAX - QUIET_PERIOD_MS,
        ensures
            *final(self) == old(self).next_spec(now_ms, ev),
    {
        match self.phase {
            Phase::StartingWatch => match ev {
                Event::Watched => {
                    self.phase = Phase::StartingChild;
                    self.watcher_on = true;
                },
                Event::WatchFailed(e) => {
                    self.phase = Phase::Failed;
                    self.error = Some(DevError::WatchFailed(e));
                },
                _ => {},
            },
            Phase::StartingChild => match ev {
                Event::ChildStarted => {
                    self.phase = Phase::Running;
                    self.child = ChildStatus::Alive;
                },
                Event::StartFailed(e) => {
                    self.phase = Phase::Failed;
                    self.error = Some(DevError::SpawnFailed(e));
                },
                _ => {},
            },
            Phase::Running => match ev {
                Event::Change => {
                    self.phase = Phase::Debouncing { until_ms: now_ms + QUIET_PERIOD_MS };
                },
                Event::WatcherError(e) => {
                    self.phase = Phase::Failed;
                    self.error = Some(DevError::WatcherReport(e));
                },
                Event::TimedOut => {
                    self.phase = Phase::CheckingChild;
                },
                Event::Disconnected => {
                    self.phase = Phase::Failed;
                    self.error = Some(DevError::ChannelClosed);
                },
                _ => {},
            },
            Phase::CheckingChild => match ev {
                Event::ChildAlive => {
                    self.phase = Phase::Running;
                },
                Event::ChildExited => {
                    self.phase = Phase::PausingWatch { trigger: Trigger::ChildExit };
                    self.child = ChildStatus::Exited;
                },
                Event::PollFailed(e) => {
                    self.phase = Phase::Failed;
                    self.error = Some(DevError::PollFailed(e));
                },
                _ => {},
            },
            Phase::Debouncing { .. } => match ev {
                Event::Change => {
                    self.phase = Phase::Debouncing { until_ms: now_ms + QUIET_PERIOD_MS };
                },
                Event::WatcherError(_) => {
                    self.phase = Phase::Debouncing { until_ms: now_ms + QUIET_PERIOD_MS };
                },
                Event::TimedOut => {
                    self.phase = Phase::CheckingAfterQuiet;
                },
                Event::Disconnected => {
                    self.phase = Phase::Failed;
                    self.error = Some(DevError::DebounceChannelClosed);
                },
                _ => {},
            },
            Phase::CheckingAfterQuiet => match ev {
                Event::ChildExited => {
                    self.phase = Phase::PausingWatch { trigger: Trigger::ChildExit };
                    self.child = ChildStatus::Exited;
                },
                Event::ChildAlive => {
                    self.phase = Phase::PausingWatch { trigger: Trigger::FileChange };
                },
                Event::PollFailed(e) => {
                    self.phase = Phase::Failed;
                    self.error = Some(DevError::PollFailed(e));
                },
                _ => {},
            },
            Phase::PausingWatch { trigger } => match ev {
                Event::Unwatched => {
                    self.phase = Phase::StoppingChild { trigger };
                    self.watcher_on = false;
                },
                Event::UnwatchFailed(e) => {
                    self.phase = Phase::Failed;
                    self.error = Some(DevError::UnwatchFailed(e));
                },
                _ => {},
            },
            Phase::StoppingChild { trigger } => match ev {
                Event::ChildStopped => {
                    self.phase = Phase::RestartingChild { trigger };
                    self.child = ChildStatus::Absent;
                },
                _ => {},
            },
            Phase::RestartingChild { .. } => match ev {
                Event::ChildStarted => {
                    self.phase = Phase::SettleWait;
                    self.child = ChildStatus::Alive;
                },
                Event::StartFailed(e) => {
                    self.phase = Phase::Failed;
                    self.error = Some(DevError::SpawnFailed(e));
                },
                _ => {},
            },
            Phase::SettleWait => match ev {
                Event::Settled => {
                    self.phase = Phase::ResumingWatch;
                },
                _ => {},
            },
            Phase::ResumingWatch => match ev {
                Event::Watched => {
                    self.phase = Phase::Running;
                    self.watcher_on = true;
                },
                Event::WatchFailed(e) => {
                    self.phase = Phase::Failed;
                    self.error = Some(DevError::WatchFailed(e));
                },
                _ => {},
            },
            Phase::Failed => {},
        }
    }

    /// What always holds of a machine that started from [`Supervisor::new`]:
    /// the error is set exactly in the failed phase; the watch is on in every
    /// phase that awaits or absorbs change events and off throughout the
    /// kill-relaunch-settle stretch of a restart; a child exists from its
    /// launch to its reaping; and a restart pass answers to an unsolicited
    /// exit exactly when the child was observed to have exited.
    pub open spec fn inv(self) -> bool {
        &&& (self.phase is Failed <==> self.error is Some)
        &&& match self.phase {
            Phase::StartingWatch => !self.watcher_on && self.child is Absent,
            Phase::StartingChild => self.watcher_on && self.child is Absent,
            Phase::Running => self.watcher_on && self.child is Alive,
            Phase::CheckingChild => self.watcher_on && self.child is Alive,
            Phase::Debouncing { .. } => self.watcher_on && self.child is Alive,
            Phase::CheckingAfterQuiet => self.watcher_on && self.child is Alive,
            Phase::PausingWatch { trigger } => self.watcher_on && (self.child is Alive
                || self.child is Exited) && (trigger is ChildExit <==> self.child is Exited),
            Phase::StoppingChild { trigger } => !self.watcher_on && (self.child is Alive
                || self.child is Exited) && (trigger is ChildExit <==> self.child is Exited),
            Phase::RestartingChild { .. } => !self.watcher_on && self.child is Absent,
            Phase::SettleWait => !self.watcher_on && self.child is Alive,
            Phase::ResumingWatch => !self.watcher_on && self.child is Alive,
            Phase::Failed => true,
        }
    }

    /// Every step keeps the invariant.
    pub proof fn lemma_step_preserves_inv(self, now_ms: u64, ev: Event)
        requires
            self.inv(),
        ensures
            self.next_spec(now_ms, ev).inv(),
    {
    }

    /// No concurrent children: a launch is only ever requested while no
    /// child exists, so the old child is always reaped (its exit status
    /// collected by the stop action) before a new one is observed as
    /// started.
    pub proof fn lemma_no_concurrent_children(self)
        requires
            self.inv(),
            self.action_spec() is StartChild,
        ensures
            self.child is Absent,
    {
    }

    /// The machine after a sequence of timed outcomes, each a clock reading
    /// paired with an event, reported in order.
    pub open spec fn run_spec(self, inputs: Seq<(u64, Event)>) -> Supervisor
        decreases inputs.len(),
    {
        if inputs.len() == 0 {
            self
        } else {
            self.next_spec(inputs[0].0, inputs[0].1).run_spec(inputs.drop_first())
        }
    }

    /// The invariant holds at every instant of a run.
    pub proof fn lemma_run_preserves_inv(self, inputs: Seq<(u64, Event)>)
        requires
            self.inv(),
        ensures
            self.run_spec(inputs).inv(),
        decreases inputs.len(),
    {
        if inputs.len() > 0 {
            self.lemma_step_preserves_inv(inputs[0].0, inputs[0].1);
            self.next_spec(inputs[0].0, inputs[0].1).lemma_run_preserves_inv(inputs.drop_first());
        }
    }

    /// Whether reporting `ev` to this machine is a settled signal: the
    /// quiet-period wait of an open debounce window elapsed with no further
    /// event.
    pub open spec fn is_settle_step(self, ev: Event) -> bool {
        self.phase is Debouncing && ev is TimedOut
    }

    /// How many settled signals fire while `inputs` is reported.
    pub open spec fn count_settles(self, inputs: Seq<(u64, Event)>) -> nat
        decreases inputs.len(),
    {
        if inputs.len() == 0 {
            0
        } else {
            (if self.is_settle_step(inputs[0].1) {
                1nat
            } else {
                0nat
            }) + self.next_spec(inputs[0].0, inputs[0].1).count_settles(inputs.drop_first())
        }
    }

    /// Whether reporting `ev` to this machine observes a launched child.
    pub open spec fn is_launch_step(self, ev: Event) -> bool {
        self.action_spec() is StartChild && ev is ChildStarted
    }

    /// How many children are observed as launched while `inputs` is
    /// reported.
    pub open spec fn count_launches(self, inputs: Seq<(u64, Event)>) -> nat
        decreases inputs.len(),
    {
        if inputs.len() == 0 {
            0
        } else {
            (if self.is_launch_step(inputs[0].1) {
                1nat
            } else {
                0nat
            }) + self.next_spec(inputs[0].0, inputs[0].1).count_launches(inputs.drop_first())
        }
    }

    /// Along any run, a launch is only ever observed while no child exists:
    /// whatever the outcomes reported, the machine never has two children,
    /// because the old one is reaped before a new launch is requested.
    pub proof fn lemma_launches_need_reaped_child(self, inputs: Seq<(u64, Event)>, k: int)
        requires
            self.inv(),
            0 <= k < inputs.len(),
            self.run_spec(inputs.take(k)).is_launch_step(inputs[k].1),
        ensures
            self.run_spec(inputs.take(k)).child is Absent,
    {
        self.lemma_run_preserves_inv(inputs.take(k));
        self.run_spec(inputs.take(k)).lemma_no_concurrent_children();
    }

    /// One more reported outcome adds its settled signal, if any, after the
    /// run of the others.
    pub proof fn lemma_count_settles_snoc(self, inputs: Seq<(u64, Event)>, now_ms: u64, ev: Event)
        ensures
            self.count_settles(inputs.push((now_ms, ev))) == self.count_settles(inputs) + (
            if self.run_spec(inputs).is_settle_step(ev) {
                1int
            } else {
                0int
            }),
        decreases inputs.len(),
    {
        let appended = inputs.push((now_ms, ev));
        if inputs.len() == 0 {
            assert(appended.drop_first() =~= Seq::<(u64, Event)>::empty());
            assert(self.run_spec(inputs) == self);
            assert(self.count_settles(inputs) == 0);
            assert(self.next_spec(now_ms, ev).count_settles(appended.drop_first()) == 0);
        } else {
            assert(appended.drop_first() =~= inputs.drop_first().push((now_ms, ev)));
            self.next_spec(inputs[0].0, inputs[0].1).lemma_count_settles_snoc(
                inputs.drop_first(),
                now_ms,
                ev,
            );
        }
    }

    /// A burst of raw change events: one change delivered at each clock
    /// reading in `times`, with no wait elapsing in between.
    pub open spec fn change_burst(times: Seq<u64>) -> Seq<(u64, Event)> {
        times.map_values(|t: u64| (t, Event::Change))
    }

    /// Debounce coalescing: a burst of one or more change events, none of
    /// them a quiet period apart (no wait between them elapses), emits no
    /// settled signal while it lasts and leaves one debounce window open,
    /// closing a quiet period after the last event of the burst.  The
    /// elapsed quiet wait that follows the burst is then exactly one
    /// settled signal.
    pub proof fn lemma_debounce_coalescing(self, times: Seq<u64>)
        requires
            self.phase is Running,
            times.len() >= 1,
        ensures
            ({
                let inputs = Supervisor::change_burst(times);
                let after = self.run_spec(inputs);
                &&& self.count_settles(inputs) == 0
                &&& after.phase == (Phase::Debouncing {
                    until_ms: (times.last() + QUIET_PERIOD_MS) as u64,
                })
                &&& after.is_settle_step(Event::TimedOut)
                &&& forall|now_ms: u64|
                    #[trigger] self.count_settles(
                        inputs.push((now_ms, Event::TimedOut)),
                    ) == 1
            }),
    {
        let inputs = Supervisor::change_burst(times);
        let after = self.run_spec(inputs);
        let opened = self.next_spec(times[0], Event::Change);
        assert(inputs.drop_first() =~= Supervisor::change_burst(times.drop_first()));
        if times.len() == 1 {
            assert(inputs.drop_first() =~= Seq::<(u64, Event)>::empty());
            assert(opened.run_spec(inputs.drop_first()) == opened);
            assert(opened.count_settles(inputs.drop_first()) == 0);
            assert(after == opened);
        } else {
            opened.lemma_burst_keeps_window(times.drop_first());
        }
        assert forall|now_ms: u64|
            #[trigger] self.count_settles(inputs.push((now_ms, Event::TimedOut))) == 1 by {
            self.lemma_count_settles_snoc(inputs, now_ms, Event::TimedOut);
        }
    }

    /// A burst reported to an open window emits nothing and moves the
    /// window to a quiet period after its last event.
    proof fn lemma_burst_keeps_window(self, times: Seq<u64>)
        requires
            self.phase is Debouncing,
            times.len() >= 1,
        ensures
            ({
                let inputs = Supervisor::change_burst(times);
                &&& self.count_settles(inputs) == 0
                &&& self.run_spec(inputs).phase == (Phase::Debouncing {
                    until_ms: (times.last() + QUIET_PERIOD_MS) as u64,
                })
            }),
        decreases times.len(),
    {
        let inputs = Supervisor::change_burst(times);
        let opened = self.next_spec(times[0], Event::Change);
        assert(inputs.drop_first() =~= Supervisor::change_burst(times.drop_first()));
        if times.len() == 1 {
            assert(inputs.drop_first() =~= Seq::<(u64, Event)>::empty());
            assert(opened.run_spec(inputs.drop_first()) == opened);
            assert(opened.count_settles(inputs.drop_first()) == 0);
        } else {
            opened.lemma_burst_keeps_window(times.drop_first());
        }
    }

    /// Unsolicited-exit priority: when a settled burst and a possible
    /// unsolicited exit meet at the closing liveness poll, the pass that
    /// follows observes exactly one launched child, not two, and returns to
    /// the steady state; when the child had exited, the one restart answers
    /// to the exit rather than to the settled change.
    pub proof fn lemma_unsolicited_exit_priority(self, inputs: Seq<(u64, Event)>, exited: bool)
        requires
            self.inv(),
            self.phase is CheckingAfterQuiet,
            Supervisor::events_of(inputs) == Supervisor::restart_pass_events(exited),
        ensures
            self.count_launches(inputs) == 1,
            self.run_spec(inputs).phase is Running,
            self.next_spec(inputs[0].0, inputs[0].1).phase == (Phase::PausingWatch {
                trigger: if exited {
                    Trigger::ChildExit
                } else {
                    Trigger::FileChange
                },
            }),
    {
        let evs = Supervisor::events_of(inputs);
        assert(evs.len() == 6);
        assert(inputs[0].1 == evs[0] && inputs[1].1 == evs[1] && inputs[2].1 == evs[2]
            && inputs[3].1 == evs[3] && inputs[4].1 == evs[4] && inputs[5].1 == evs[5]);
        let d1 = inputs.drop_first();
        let d2 = d1.drop_first();
        let d3 = d2.drop_first();
        let d4 = d3.drop_first();
        let d5 = d4.drop_first();
        let d6 = d5.drop_first();
        assert(d6 =~= Seq::<(u64, Event)>::empty());
        let s1 = self.next_spec(inputs[0].0, inputs[0].1);
        let s2 = s1.next_spec(inputs[1].0, inputs[1].1);
        let s3 = s2.next_spec(inputs[2].0, inputs[2].1);
        let s4 = s3.next_spec(inputs[3].0, inputs[3].1);
        let s5 = s4.next_spec(inputs[4].0, inputs[4].1);
        let s6 = s5.next_spec(inputs[5].0, inputs[5].1);
        assert(self.run_spec(inputs) == s1.run_spec(d1));
        assert(s1.run_spec(d1) == s2.run_spec(d2));
        assert(s2.run_spec(d2) == s3.run_spec(d3));
        assert(s3.run_spec(d3) == s4.run_spec(d4));
        assert(s4.run_spec(d4) == s5.run_spec(d5));
        assert(s5.run_spec(d5) == s6.run_spec(d6));
        assert(self.count_launches(inputs) == s1.count_launches(d1));
        assert(s1.count_launches(d1) == s2.count_launches(d2));
        assert(s2.count_launches(d2) == s3.count_launches(d3));
        assert(s3.count_launches(d3) == 1 + s4.count_launches(d4));
        assert(s4.count_launches(d4) == s5.count_launches(d5));
        assert(s5.count_launches(d5) == s6.count_launches(d6));
    }

    /// The events of a sequence of timed outcomes, in order.
    pub open spec fn events_of(inputs: Seq<(u64, Event)>) -> Seq<Event> {
        inputs.map_values(|i: (u64, Event)| i.1)
    }

    /// The events of one whole restart pass, from the closing liveness poll
    /// back to the steady state: the poll's outcome, then pause, reap,
    /// launch, settle, resume.
    pub open spec fn restart_pass_events(exited: bool) -> Seq<Event> {
        seq![
            if exited {
                Event::ChildExited
            } else {
                Event::ChildAlive
            },
            Event::Unwatched,
            Event::ChildStopped,
            Event::ChildStarted,
            Event::Settled,
            Event::Watched,
        ]
    }

    /// Pause/resume symmetry: while delivery is paused, a delivered change
    /// event never reaches the logic -- the machine is left exactly as it
    /// was, no window opens and no restart is requested -- and the resume
    /// that ends a restart pass turns delivery back on for the same
    /// session, returning to the steady state with child and verbosity
    /// unchanged.
    pub proof fn lemma_pause_resume_symmetry(self, now_ms: u64)
        requires
            self.inv(),
        ensures
            !self.watcher_on ==> self.next_spec(now_ms, Event::Change) == self,
            self.phase is ResumingWatch ==> ({
                let resumed = self.next_spec(now_ms, Event::Watched);
                &&& resumed.phase is Running
                &&& resumed.watcher_on
                &&& resumed.child == self.child
                &&& resumed.verbose == self.verbose
                &&& resumed.error == self.error
            }),
    {
    }

    /// The arguments the child is launched with: the build tool's run
    /// command, plus the verbosity flag when dev mode was asked for it.
    pub open spec fn launch_args_spec(verbose: bool) -> Seq<Seq<char>> {
        if verbose {
            seq!["run"@, "--verbose"@]
        } else {
            seq!["run"@]
        }
    }

    /// Build the launch arguments.  They depend only on the verbosity flag,
    /// which no step changes, so every relaunch uses the arguments of the
    /// first launch.
    pub fn launch_args(&self) -> (args: Vec<String>)
        ensures
            args@.map_values(|a: String| a@) == Supervisor::launch_args_spec(self.verbose),
    {
        let mut args: Vec<String> = Vec::new();
        args.push(String::from_str("run"));
        if self.verbose {
            args.push(String::from_str("--verbose"));
        }
        proof {
            assert(args@.map_values(|a: String| a@) =~= Supervisor::launch_args_spec(
                self.verbose,
            ));
        }
        args
    }

    /// No step changes the verbosity flag, so no step changes the launch
    /// arguments: a restarted child is launched exactly as the first one.
    pub proof fn lemma_launch_args_stable(self, now_ms: u64, ev: Event)
        ensures
            Supervisor::launch_args_spec(self.next_spec(now_ms, ev).verbose)
                == Supervisor::launch_args_spec(self.verbose),
    {
    }

    /// The program the launch arguments are handed to.
    pub fn launch_program(&self) -> (p: &'static str)
        ensures
            p@ == "cargo"@,
    {
        "cargo"
    }
}

impl DevError {
    /// The diagnostic this error shows the operator.
    pub open spec fn message_spec(self) -> Seq<char> {
        match self {
            DevError::NotAProject => "Not a cargopal project. Try `cargopal new` to create a new project."@,
            DevError::BadDescriptor => "Invalid project descriptor: no string `template` entry in .cargopal.toml."@,
            DevError::WrongTemplate(t) => "The `dev` command is only available for web templates. This is a '"@
                + t@ + "' project."@,
            DevError::WatchFailed(e) => "Failed to watch the source directory: "@ + e@,
            DevError::UnwatchFailed(e) => "Failed to pause the file watcher: "@ + e@,
            DevError::WatcherReport(e) => "File watcher error: "@ + e@,
            DevError::ChannelClosed => "File watcher channel disconnected."@,
            DevError::DebounceChannelClosed => "File watcher channel error during debounce: channel disconnected."@,
            DevError::PollFailed(e) => "Failed to poll the dev server process: "@ + e@,
            DevError::SpawnFailed(e) => "Failed to start the dev server process: "@ + e@,
        }
    }

    /// Render the diagnostic.
    pub fn message(&self) -> (m: String)
        ensures
            m@ == self.message_spec(),
    {
        match self {
            DevError::NotAProject => String::from_str(
                "Not a cargopal project. Try `cargopal new` to create a new project.",
            ),
            DevError::BadDescriptor => String::from_str(
                "Invalid project descriptor: no string `template` entry in .cargopal.toml.",
            ),
            DevError::WrongTemplate(t) => String::from_str(
                "The `dev` command is only available for web templates. This is a '",
            ).concat(t.as_str()).concat("' project."),
            DevError::WatchFailed(e) => String::from_str(
                "Failed to watch the source directory: ",
            ).concat(e.as_str()),
            DevError::UnwatchFailed(e) => String::from_str(
                "Failed to pause the file watcher: ",
            ).concat(e.as_str()),
            DevError::WatcherReport(e) => String::from_str("File watcher error: ").concat(
                e.as_str(),
            ),
            DevError::ChannelClosed => String::from_str("File watcher channel disconnected."),
            DevError::DebounceChannelClosed => String::from_str(
                "File watcher channel error during debounce: channel disconnected.",
            ),
            DevError::PollFailed(e) => String::from_str(
                "Failed to poll the dev server process: ",
            ).concat(e.as_str()),
            DevError::SpawnFailed(e) => String::from_str(
                "Failed to start the dev server process: ",
            ).concat(e.as_str()),
        }
    }
}

} // verus!

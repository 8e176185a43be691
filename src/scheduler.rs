use vstd::prelude::*;

verus! {

/// Where the polling loop stands.
#[derive(Clone, Copy, Debug, PartialEq, Eq, Structural)]
pub enum SchedulerState {
    Waiting,
    Running,
    Stopped,
}

/// What the polling loop is told.
#[derive(Clone, Copy, Debug, PartialEq, Eq, Structural)]
pub enum SchedulerEvent {
    /// The wait between ticks is over.
    TimerFires,
    /// The running tick has finished.
    TickComplete,
    /// Shutdown was asked for.
    CancelSignal,
}

/// What the polling loop does next.
#[derive(Clone, Copy, Debug, PartialEq, Eq, Structural)]
pub enum SchedulerAction {
    StartTick,
    Wait,
    Stop,
    Nothing,
}

/// The polling loop's state machine. A cancellation that arrives while a tick
/// runs is held in `cancel_requested` and honoured when the tick completes.
#[derive(Clone, Copy, Debug, PartialEq, Eq, Structural)]
pub struct Scheduler {
    pub state: SchedulerState,
    pub cancel_requested: bool,
}

/// The state after `s` is told `e`.
pub open spec fn next_state(s: Scheduler, e: SchedulerEvent) -> Scheduler {
    match (s.state, e) {
        (SchedulerState::Waiting, SchedulerEvent::TimerFires) => Scheduler {
            state: SchedulerState::Running,
            cancel_requested: false,
        },
        (SchedulerState::Waiting, SchedulerEvent::CancelSignal) => Scheduler {
            state: SchedulerState::Stopped,
            cancel_requested: false,
        },
        (SchedulerState::Running, SchedulerEvent::CancelSignal) => Scheduler {
            state: SchedulerState::Running,
            cancel_requested: true,
        },
        (SchedulerState::Running, SchedulerEvent::TickComplete) => if s.cancel_requested {
            Scheduler { state: SchedulerState::Stopped, cancel_requested: false }
        } else {
            Scheduler { state: SchedulerState::Waiting, cancel_requested: false }
        },
        _ => s,
    }
}

/// What the loop does when `s` is told `e`.
pub open spec fn next_action(s: Scheduler, e: SchedulerEvent) -> SchedulerAction {
    match (s.state, e) {
        (SchedulerState::Waiting, SchedulerEvent::TimerFires) => SchedulerAction::StartTick,
        (SchedulerState::Waiting, SchedulerEvent::CancelSignal) => SchedulerAction::Stop,
        (SchedulerState::Running, SchedulerEvent::TickComplete) => if s.cancel_requested {
            SchedulerAction::Stop
        } else {
            SchedulerAction::Wait
        },
        _ => SchedulerAction::Nothing,
    }
}

/// The state after `s` is told each event of `events` in turn.
pub open spec fn run_events(s: Scheduler, events: Seq<SchedulerEvent>) -> Scheduler
    decreases events.len(),
{
    if events.len() == 0 {
        s
    } else {
        next_state(run_events(s, events.drop_last()), events.last())
    }
}

/// Some event of `events`, told in turn from `s`, starts a tick.
pub open spec fn starts_a_tick(s: Scheduler, events: Seq<SchedulerEvent>) -> bool {
    exists|i: int|
        0 <= i < events.len() && next_action(run_events(s, events.take(i)), events[i])
            == SchedulerAction::StartTick
}

impl Scheduler {
    /// Only a running tick holds a pending cancellation.
    pub open spec fn wf(&self) -> bool {
        self.cancel_requested ==> self.state == SchedulerState::Running
    }

    /// A loop whose first tick starts at once.
    pub fn new() -> (r: Scheduler)
        ensures
            r.state == SchedulerState::Running,
            !r.cancel_requested,
            r.wf(),
    {
        Scheduler { state: SchedulerState::Running, cancel_requested: false }
    }

    /// Tells the loop `event` and returns what it does next.
    pub fn step(&mut self, event: SchedulerEvent) -> (r: SchedulerAction)
        requires
            old(self).wf(),
        ensures
            *final(self) == next_state(*old(self), event),
            r == next_action(*old(self), event),
            final(self).wf(),
    {
        match (self.state, event) {
            (SchedulerState::Waiting, SchedulerEvent::TimerFires) => {
                self.state = SchedulerState::Running;
                SchedulerAction::StartTick
            },
            (SchedulerState::Waiting, SchedulerEvent::CancelSignal) => {
                self.state = SchedulerState::Stopped;
                SchedulerAction::Stop
            },
            (SchedulerState::Running, SchedulerEvent::CancelSignal) => {
                self.cancel_requested = true;
                SchedulerAction::Nothing
            },
            (SchedulerState::Running, SchedulerEvent::TickComplete) => {
                let stop = self.cancel_requested;
                self.cancel_requested = false;
                if stop {
                    self.state = SchedulerState::Stopped;
                    SchedulerAction::Stop
                } else {
                    self.state = SchedulerState::Waiting;
                    SchedulerAction::Wait
                }
            },
            _ => SchedulerAction::Nothing,
        }
    }

    /// Whether the loop has stopped for good.
    pub fn is_stopped(&self) -> (r: bool)
        ensures
            r == (self.state == SchedulerState::Stopped),
    {
        self.state == SchedulerState::Stopped
    }
}

/// Once stopped, the loop stays stopped and starts no tick, whatever it is
/// told.
pub proof fn lemma_stopped_is_final(s: Scheduler, events: Seq<SchedulerEvent>)
    requires
        s.state == SchedulerState::Stopped,
    ensures
        run_events(s, events) == s,
        !starts_a_tick(s, events),
    decreases events.len(),
{
    if events.len() > 0 {
        lemma_stopped_is_final(s, events.drop_last());
    }
    assert forall|i: int| 0 <= i < events.len() implies next_action(run_events(s, events.take(i)), events[i])
        != SchedulerAction::StartTick by {
        lemma_stopped_is_final(s, events.take(i));
    }
}

/// A cancellation while waiting stops the loop at once: no tick starts
/// afterwards, whatever the loop is told.
pub proof fn lemma_cancel_while_waiting(s: Scheduler, later: Seq<SchedulerEvent>)
    requires
        s.wf(),
        s.state == SchedulerState::Waiting,
    ensures
        next_action(s, SchedulerEvent::CancelSignal) == SchedulerAction::Stop,
        next_state(s, SchedulerEvent::CancelSignal).state == SchedulerState::Stopped,
        run_events(next_state(s, SchedulerEvent::CancelSignal), later).state == SchedulerState::Stopped,
        !starts_a_tick(next_state(s, SchedulerEvent::CancelSignal), later),
{
    lemma_stopped_is_final(next_state(s, SchedulerEvent::CancelSignal), later);
}

/// A cancellation while a tick runs does not cut the tick short: the loop
/// keeps running through any events other than the tick's completion, and
/// stops as soon as the tick completes.
pub proof fn lemma_cancel_while_running(s: Scheduler, during: Seq<SchedulerEvent>)
    requires
        s.wf(),
        s.state == SchedulerState::Running,
        forall|i: int| 0 <= i < during.len() ==> during[i] != SchedulerEvent::TickComplete,
    ensures
        run_events(next_state(s, SchedulerEvent::CancelSignal), during).state == SchedulerState::Running,
        next_action(
            run_events(next_state(s, SchedulerEvent::CancelSignal), during),
            SchedulerEvent::TickComplete,
        ) == SchedulerAction::Stop,
        next_state(
            run_events(next_state(s, SchedulerEvent::CancelSignal), during),
            SchedulerEvent::TickComplete,
        ).state == SchedulerState::Stopped,
    decreases during.len(),
{
    let c = next_state(s, SchedulerEvent::CancelSignal);
    if during.len() > 0 {
        lemma_cancel_while_running(s, during.drop_last());
    }
    assert(run_events(c, during) == (Scheduler {
        state: SchedulerState::Running,
        cancel_requested: true,
    }));
}

} // verus!

use vstd::prelude::*;

verus! {

/// A source whose notification asks the process to stop.
#[derive(Clone, Copy, Debug, PartialEq, Eq, Structural)]
pub enum SignalSource {
    /// The operator's interactive interrupt (a keyboard interrupt).
    Interrupt,
    /// The polite termination request of a process manager.
    Terminate,
}

/// What the runtime reports to the coordinator.
#[derive(Clone, Copy, Debug, PartialEq, Eq, Structural)]
pub enum ShutdownEvent {
    /// The source delivered its notification.
    Fired(SignalSource),
    /// The handler for the source could not be installed.
    InstallFailed(SignalSource),
}

/// What the runtime must do after an event.
#[derive(Clone, Copy, Debug, PartialEq, Eq, Structural)]
pub enum ShutdownAction {
    /// Nothing changes: keep waiting, or stay stopped.
    Ignore,
    /// Return from the shutdown wait so that the server drains.
    Stop,
    /// Tell the operator that the interrupt was received, then return.
    NoticeAndStop,
    /// The environment is unusable: end the process with a diagnostic
    /// naming the source.
    Abort(SignalSource),
}

impl ShutdownAction {
    /// The action ends the shutdown wait normally.
    pub open spec fn is_stop(self) -> bool {
        self is Stop || self is NoticeAndStop
    }
}

/// The decisions of a one-shot wait on the first of two signal sources.
///
/// The interrupt source is always registered; the termination source only
/// where the platform has one. A source that is not registered never
/// completes, so its events are ignored.
#[derive(Clone, Copy, Debug)]
pub struct ShutdownCoordinator {
    /// Whether the platform offers a termination source.
    pub terminate_source: bool,
    /// Whether the wait has already ended.
    pub finished: bool,
}

impl ShutdownCoordinator {
    /// A coordinator that has not seen any event yet.
    pub open spec fn fresh(terminate_source: bool) -> ShutdownCoordinator {
        ShutdownCoordinator { terminate_source, finished: false }
    }

    /// Whether the coordinator listens to `source`.
    pub open spec fn listens_to(self, source: SignalSource) -> bool {
        source is Interrupt || self.terminate_source
    }

    /// The next state and the action for one event.
    pub open spec fn step(self, e: ShutdownEvent) -> (ShutdownCoordinator, ShutdownAction) {
        let done = ShutdownCoordinator { finished: true, ..self };
        if self.finished {
            (self, ShutdownAction::Ignore)
        } else {
            match e {
                ShutdownEvent::Fired(s) => if !self.listens_to(s) {
                    (self, ShutdownAction::Ignore)
                } else if s is Interrupt {
                    (done, ShutdownAction::NoticeAndStop)
                } else {
                    (done, ShutdownAction::Stop)
                },
                ShutdownEvent::InstallFailed(s) => if !self.listens_to(s) {
                    (self, ShutdownAction::Ignore)
                } else {
                    (done, ShutdownAction::Abort(s))
                },
            }
        }
    }

    /// The state after a sequence of events.
    pub open spec fn run(self, events: Seq<ShutdownEvent>) -> ShutdownCoordinator
        decreases events.len(),
    {
        if events.len() == 0 {
            self
        } else {
            self.step(events[0]).0.run(events.drop_first())
        }
    }

    /// How many of the actions for a sequence of events end the wait.
    pub open spec fn stops(self, events: Seq<ShutdownEvent>) -> nat
        decreases events.len(),
    {
        if events.len() == 0 {
            0
        } else {
            let (next, action) = self.step(events[0]);
            (if action.is_stop() { 1nat } else { 0nat }) + next.stops(events.drop_first())
        }
    }

    /// Starts a wait; `terminate_source` says whether the platform offers a
    /// termination source.
    pub fn new(terminate_source: bool) -> (r: ShutdownCoordinator)
        ensures
            r == ShutdownCoordinator::fresh(terminate_source),
    {
        ShutdownCoordinator { terminate_source, finished: false }
    }

    /// Whether the wait has ended.
    pub fn is_finished(&self) -> (r: bool)
        ensures
            r == self.finished,
    {
        self.finished
    }

    /// Takes one event and says what to do about it.
    pub fn on_event(&mut self, e: ShutdownEvent) -> (a: ShutdownAction)
        ensures
            (*final(self), a) == old(self).step(e),
    {
        if self.finished {
            return ShutdownAction::Ignore;
        }
        let (source, fired) = match e {
            ShutdownEvent::Fired(s) => (s, true),
            ShutdownEvent::InstallFailed(s) => (s, false),
        };
        let listened = match source {
            SignalSource::Interrupt => true,
            SignalSource::Terminate => self.terminate_source,
        };
        if !listened {
            ShutdownAction::Ignore
        } else {
            self.finished = true;
            if !fired {
                ShutdownAction::Abort(source)
            } else {
                match source {
                    SignalSource::Interrupt => ShutdownAction::NoticeAndStop,
                    SignalSource::Terminate => ShutdownAction::Stop,
                }
            }
        }
    }
}

/// Every event of the sequence is a delivered notification.
pub open spec fn all_fired(events: Seq<ShutdownEvent>) -> bool {
    forall|i: int| 0 <= i < events.len() ==> #[trigger] events[i] is Fired
}

/// Some event of the sequence is a notification from `source`.
pub open spec fn fires(events: Seq<ShutdownEvent>, source: SignalSource) -> bool {
    exists|i: int| 0 <= i < events.len() && #[trigger] events[i] == ShutdownEvent::Fired(source)
}

/// Once the wait has ended, no later event ends it again.
pub proof fn lemma_finished_stays(c: ShutdownCoordinator, events: Seq<ShutdownEvent>)
    requires
        c.finished,
    ensures
        c.run(events) == c,
        c.stops(events) == 0,
    decreases events.len(),
{
    if events.len() > 0 {
        lemma_finished_stays(c, events.drop_first());
    }
}

proof fn lemma_fires_split(events: Seq<ShutdownEvent>, source: SignalSource)
    requires
        events.len() > 0,
    ensures
        fires(events, source) <==> (events[0] == ShutdownEvent::Fired(source) || fires(
            events.drop_first(),
            source,
        )),
{
    let rest = events.drop_first();
    if fires(events, source) && events[0] != ShutdownEvent::Fired(source) {
        let i = choose|i: int|
            0 <= i < events.len() && #[trigger] events[i] == ShutdownEvent::Fired(source);
        assert(rest[i - 1] == events[i]);
    }
    if fires(rest, source) {
        let j = choose|j: int| 0 <= j < rest.len() && #[trigger] rest[j] == ShutdownEvent::Fired(source);
        assert(events[j + 1] == rest[j]);
    }
}

/// Where the platform has no termination source, the wait ends if and only
/// if the interrupt fires, and then exactly once.
pub proof fn lemma_interrupt_alone_decides(events: Seq<ShutdownEvent>)
    requires
        all_fired(events),
    ensures
        ShutdownCoordinator::fresh(false).run(events).finished <==> fires(
            events,
            SignalSource::Interrupt,
        ),
        ShutdownCoordinator::fresh(false).stops(events) == (if fires(
            events,
            SignalSource::Interrupt,
        ) {
            1nat
        } else {
            0nat
        }),
    decreases events.len(),
{
    let c = ShutdownCoordinator::fresh(false);
    if events.len() > 0 {
        let rest = events.drop_first();
        assert(events[0] is Fired);
        assert forall|i: int| 0 <= i < rest.len() implies #[trigger] rest[i] is Fired by {
            assert(rest[i] == events[i + 1]);
        }
        lemma_fires_split(events, SignalSource::Interrupt);
        if events[0] == ShutdownEvent::Fired(SignalSource::Interrupt) {
            lemma_finished_stays(c.step(events[0]).0, rest);
        } else {
            lemma_interrupt_alone_decides(rest);
        }
    }
}

/// Where both sources are registered, any non-empty sequence of
/// notifications, from either source or from both, ends the wait exactly
/// once.
pub proof fn lemma_stops_exactly_once(events: Seq<ShutdownEvent>)
    requires
        events.len() > 0,
        all_fired(events),
    ensures
        ShutdownCoordinator::fresh(true).run(events).finished,
        ShutdownCoordinator::fresh(true).stops(events) == 1,
{
    let c = ShutdownCoordinator::fresh(true);
    assert(events[0] is Fired);
    lemma_finished_stays(c.step(events[0]).0, events.drop_first());
}

} // verus!

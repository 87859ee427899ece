//! The door between a listener that is being unregistered and the messages queued for it.
use vstd::prelude::*;

verus! {

/// Whether a listener still takes messages.
///
/// A callback asks to enter before it is polled for the first time, and stays alone at the
/// door until that poll is done. Once the listener was stopped no callback enters, however
/// long before it was queued. A callback that has entered runs to its end.
pub struct ListenerActivity {
    active: bool,
}

/// What a dispatch does next.
#[derive(Clone, Copy, Debug, PartialEq, Eq, Structural)]
pub enum DispatchStep {
    /// It is over.
    Return,
    /// It polls its callback for the first time, and only then leaves the door.
    PollCallback,
    /// It leaves the door and waits for its callback.
    AwaitCallback,
}

impl ListenerActivity {
    /// Whether callbacks may enter.
    pub closed spec fn is_active(self) -> bool {
        self.active
    }

    /// Creates the door of a listener that takes messages.
    pub fn new() -> (activity: ListenerActivity)
        ensures
            activity.is_active(),
    {
        ListenerActivity { active: true }
    }

    /// Closes the door for good.
    pub fn stop(&mut self)
        ensures
            !final(self).is_active(),
    {
        self.active = false;
    }

    /// Begins a dispatch: its callback is polled if callbacks may enter.
    pub fn dispatch(&self) -> (step: DispatchStep)
        ensures
            step == (if self.is_active() {
                DispatchStep::PollCallback
            } else {
                DispatchStep::Return
            }),
    {
        if self.active {
            DispatchStep::PollCallback
        } else {
            DispatchStep::Return
        }
    }

    /// Goes on with a dispatch after the first poll of its callback, whether or not the
    /// listener was stopped meanwhile.
    pub fn callback_polled(pending: bool) -> (step: DispatchStep)
        ensures
            step == (if pending {
                DispatchStep::AwaitCallback
            } else {
                DispatchStep::Return
            }),
    {
        if pending {
            DispatchStep::AwaitCallback
        } else {
            DispatchStep::Return
        }
    }
}

/// What happens at the door, one thing after the other.
pub enum ActivityEvent {
    /// The listener is stopped.
    Stop,
    /// The dispatch of a callback comes to the door.
    Dispatch(int),
}

/// Whether callbacks may enter after what happened so far.
pub open spec fn active_after(events: Seq<ActivityEvent>) -> bool
    decreases events.len(),
{
    if events.len() == 0 {
        true
    } else {
        active_after(events.drop_last()) && events.last() is Dispatch
    }
}

/// The callbacks that have begun, in the order in which they did.
pub open spec fn begun(events: Seq<ActivityEvent>) -> Seq<int>
    decreases events.len(),
{
    if events.len() == 0 {
        Seq::empty()
    } else {
        match events.last() {
            ActivityEvent::Dispatch(callback) if active_after(events.drop_last()) => begun(
                events.drop_last(),
            ).push(callback),
            _ => begun(events.drop_last()),
        }
    }
}

/// The callbacks whose dispatches have come to the door, in that order.
pub open spec fn dispatched(events: Seq<ActivityEvent>) -> Seq<int>
    decreases events.len(),
{
    if events.len() == 0 {
        Seq::empty()
    } else {
        match events.last() {
            ActivityEvent::Dispatch(callback) => dispatched(events.drop_last()).push(callback),
            ActivityEvent::Stop => dispatched(events.drop_last()),
        }
    }
}

/// What happens at the door is what [`ListenerActivity`] does: it is open at first, to stop
/// the listener closes it and begins nothing, and a dispatch leaves it as it is and begins
/// its callback exactly if it is open.
pub proof fn law_events_follow_the_door(before: Seq<ActivityEvent>, callback: int)
    ensures
        active_after(Seq::empty()),
        !active_after(before.push(ActivityEvent::Stop)),
        begun(before.push(ActivityEvent::Stop)) == begun(before),
        active_after(before.push(ActivityEvent::Dispatch(callback))) == active_after(before),
        begun(before.push(ActivityEvent::Dispatch(callback))) == (if active_after(before) {
            begun(before).push(callback)
        } else {
            begun(before)
        }),
{
    assert(before.push(ActivityEvent::Stop).drop_last() =~= before);
    assert(before.push(ActivityEvent::Dispatch(callback)).drop_last() =~= before);
}

/// Once the listener was stopped no callback begins, whatever comes to the door later, and
/// to stop it again changes nothing.
pub proof fn law_nothing_begins_after_stop(
    before: Seq<ActivityEvent>,
    later: Seq<ActivityEvent>,
)
    ensures
        !active_after(before.push(ActivityEvent::Stop) + later),
        begun(before.push(ActivityEvent::Stop) + later) == begun(before),
    decreases later.len(),
{
    let stopped = before.push(ActivityEvent::Stop);
    let all = stopped + later;
    if later.len() == 0 {
        assert(all =~= stopped);
        assert(stopped.drop_last() =~= before);
    } else {
        law_nothing_begins_after_stop(before, later.drop_last());
        assert(all.drop_last() =~= stopped + later.drop_last());
    }
}

/// As long as the listener was not stopped every dispatch begins its callback, once and in
/// the order in which the dispatches come.
pub proof fn law_every_dispatch_begins_before_stop(events: Seq<ActivityEvent>)
    requires
        forall|i: int| 0 <= i < events.len() ==> (#[trigger] events[i]) is Dispatch,
    ensures
        active_after(events),
        begun(events) == dispatched(events),
        begun(events).len() == events.len(),
    decreases events.len(),
{
    if events.len() > 0 {
        let init = events.drop_last();
        assert forall|i: int| 0 <= i < init.len() implies (#[trigger] init[i]) is Dispatch by {
            assert(init[i] == events[i]);
        }
        law_every_dispatch_begins_before_stop(init);
        assert(events.last() == events[events.len() - 1]);
    }
}

} // verus!

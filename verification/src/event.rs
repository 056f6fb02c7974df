//! Events: raw touches from the front end, and the registrations that undo
//! a listener's or a handler's subscription.

use vstd::prelude::*;

verus! {

/// The phase of a touch.
#[derive(Clone, Copy, Debug, PartialEq, Eq, Structural)]
pub enum TouchEventType {
    Start,
    Move,
    End,
}

/// A touch event with one or two fingers.
#[derive(Clone, Copy, Debug)]
pub struct RawTouchEvent<Touch> {
    pub state: TouchEventType,
    pub touch: Touch,
    pub other_touch_opt: Option<Touch>,
}

impl<Touch> RawTouchEvent<Touch> {
    pub fn new(state: TouchEventType, touch: Touch, other_touch_opt: Option<Touch>) -> (ev: Self)
        ensures
            ev.state == state,
            ev.touch == touch,
            ev.other_touch_opt == other_touch_opt,
    {
        RawTouchEvent { state, touch, other_touch_opt }
    }

    /// One finger starts touching.
    pub fn start_1(touch: Touch) -> (ev: Self)
        ensures
            ev.state == TouchEventType::Start,
            ev.touch == touch,
            ev.other_touch_opt is None,
    {
        RawTouchEvent::new(TouchEventType::Start, touch, None)
    }

    /// Two fingers start touching.
    pub fn start_2(touch_1: Touch, touch_2: Touch) -> (ev: Self)
        ensures
            ev.state == TouchEventType::Start,
            ev.touch == touch_1,
            ev.other_touch_opt == Some(touch_2),
    {
        RawTouchEvent::new(TouchEventType::Start, touch_1, Some(touch_2))
    }

    /// One finger moves.
    pub fn move_1(touch: Touch) -> (ev: Self)
        ensures
            ev.state == TouchEventType::Move,
            ev.touch == touch,
            ev.other_touch_opt is None,
    {
        RawTouchEvent::new(TouchEventType::Move, touch, None)
    }

    /// Two fingers move.
    pub fn move_2(touch_1: Touch, touch_2: Touch) -> (ev: Self)
        ensures
            ev.state == TouchEventType::Move,
            ev.touch == touch_1,
            ev.other_touch_opt == Some(touch_2),
    {
        RawTouchEvent::new(TouchEventType::Move, touch_1, Some(touch_2))
    }

    /// One finger lifts.
    pub fn end_1(touch: Touch) -> (ev: Self)
        ensures
            ev.state == TouchEventType::End,
            ev.touch == touch,
            ev.other_touch_opt is None,
    {
        RawTouchEvent::new(TouchEventType::End, touch, None)
    }

    /// Two fingers lift.
    pub fn end_2(touch_1: Touch, touch_2: Touch) -> (ev: Self)
        ensures
            ev.state == TouchEventType::End,
            ev.touch == touch_1,
            ev.other_touch_opt == Some(touch_2),
    {
        RawTouchEvent::new(TouchEventType::End, touch_1, Some(touch_2))
    }
}

/// What can serve as the key of a kind of event.
pub trait EventKey: core::fmt::Debug + core::hash::Hash + Eq + Copy + Send + Sync + 'static {}

impl<T> EventKey for T where T: core::fmt::Debug + core::hash::Hash + Eq + Copy + Send + Sync + 'static {}

/// Something that reacts to events of type `E`.
pub trait EventHandler<E> {
    fn on_event(&self, event: &E);
}

/// Holds the action that undoes a listener's registration; the action runs
/// at most once, when `deregister` is called. Dropping the registration does
/// not run it.
pub struct ListenerRegistration<F: FnOnce()> {
    deregister: Option<F>,
}

impl<F: FnOnce()> ListenerRegistration<F> {
    /// The action still to run, if it has not run yet.
    pub closed spec fn pending(self) -> Option<F> {
        self.deregister
    }

    pub fn new(deregister: F) -> (r: Self)
        ensures
            r.pending() == Some(deregister),
    {
        ListenerRegistration { deregister: Some(deregister) }
    }

    /// Run the action if it has not run yet; afterwards nothing is pending.
    pub fn deregister(&mut self)
        requires
            old(self).pending() is Some ==> call_requires(old(self).pending()->Some_0, ()),
        ensures
            final(self).pending() is None,
            old(self).pending() is Some ==> call_ensures(old(self).pending()->Some_0, (), ()),
    {
        if let Some(action) = self.deregister.take() {
            action();
        }
    }
}

/// Holds the action that undoes a handler's registration; the action runs
/// each time `deregister` is called. Dropping the registration does not run
/// it.
pub struct HandlerRegistration<F: Fn()> {
    deregister: F,
}

impl<F: Fn()> HandlerRegistration<F> {
    /// The action that undoes the registration.
    pub closed spec fn action(self) -> F {
        self.deregister
    }

    pub fn new(deregister: F) -> (r: Self)
        ensures
            r.action() == deregister,
    {
        HandlerRegistration { deregister }
    }

    /// Run the action.
    pub fn deregister(&self)
        requires
            call_requires(self.action(), ()),
        ensures
            call_ensures(self.action(), (), ()),
    {
        (self.deregister)();
    }
}

} // verus!

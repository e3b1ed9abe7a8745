//! Single-slot, latest-value-wins hand-off from a producer to the renderer.
use vstd::prelude::*;
use embassy_sync::blocking_mutex::raw::CriticalSectionRawMutex;
use embassy_sync::signal::Signal;
use crate::animation::Animation;

verus! {

/// An embassy-sync signal carrying animations, guarded by a critical section.
/// Verus sees only what the functions below state of it.
#[verifier::external_body]
pub struct AnimationSignal {
    inner: Signal<CriticalSectionRawMutex, Animation>,
}

/// The value that a signal holds and has not yet handed out, if any.
pub uninterp spec fn signal_value(s: AnimationSignal) -> Option<
    Animation,
>;

/// Relies on `Signal::new`: a new signal holds no value.
#[verifier::external_body]
fn signal_new() -> (s: AnimationSignal)
    ensures
        signal_value(s) is None,
{
    AnimationSignal { inner: Signal::new() }
}

/// Relies on `Signal::signal`: the slot now holds `v`, whatever it held.
#[verifier::external_body]
fn signal_put(s: &mut AnimationSignal, v: Animation)
    ensures
        signal_value(*final(s)) == Some(v),
{
    s.inner.signal(v)
}

/// Relies on `Signal::try_take`: hands out the held value, if any, and
/// leaves the slot empty.
#[verifier::external_body]
fn signal_try_take(s: &mut AnimationSignal) -> (r: Option<Animation>)
    ensures
        r == signal_value(*old(s)),
        signal_value(*final(s)) is None,
{
    s.inner.try_take()
}

/// Relies on `Signal::signaled`: whether a value is held, without taking it.
#[verifier::external_body]
fn signal_has_value(s: &AnimationSignal) -> (r: bool)
    ensures
        r == signal_value(*s) is Some,
{
    s.inner.signaled()
}

/// The slot after a publish: the new value replaces anything pending.
pub open spec fn after_publish(slot: Option<Animation>, v: Animation) -> Option<Animation> {
    Some(v)
}

/// A take: what it hands out, and the slot after it.
pub open spec fn take(slot: Option<Animation>) -> (Option<Animation>, Option<Animation>) {
    (slot, None)
}

/// The hand-off slot between the selector and the renderer.
pub struct Mailbox {
    slot: AnimationSignal,
}

impl View for Mailbox {
    /// The pending animation, if one was published and not yet taken.
    type V = Option<Animation>;

    closed spec fn view(&self) -> Option<Animation> {
        signal_value(self.slot)
    }
}

impl Mailbox {
    /// An empty mailbox.
    pub fn new() -> (m: Mailbox)
        ensures
            m@ is None,
    {
        Mailbox { slot: signal_new() }
    }

    /// Publishes `v`, overwriting any value not yet taken.
    pub fn publish(&mut self, v: Animation)
        ensures
            final(self)@ == after_publish(old(self)@, v),
    {
        signal_put(&mut self.slot, v);
    }

    /// Takes the pending value, if any, and leaves the mailbox empty.
    pub fn try_take(&mut self) -> (r: Option<Animation>)
        ensures
            (r, final(self)@) == take(old(self)@),
    {
        signal_try_take(&mut self.slot)
    }

    /// Whether a value is pending.
    pub fn is_pending(&self) -> (r: bool)
        ensures
            r == self@ is Some,
    {
        signal_has_value(&self.slot)
    }
}

/// Latest wins: after two publishes with no take between them, the next take
/// hands out the second value, and a take right after that hands out nothing.
pub proof fn law_latest_wins(slot: Option<Animation>, v1: Animation, v2: Animation)
    ensures
        take(after_publish(after_publish(slot, v1), v2)).0 == Some(v2),
        take(take(after_publish(after_publish(slot, v1), v2)).1).0 is None,
{
}

} // verus!

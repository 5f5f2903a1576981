//! A scope guard that carries a state.
//!
//! A [`ScopeGuard`] wraps a value, keeps a state tag beside it, and owns a
//! callback. While the guard lives, the value is reached through it and the
//! state can be replaced at will. At the end, [`ScopeGuard::release`] calls
//! the callback once, with the value and a reference to the state as they
//! are at that moment, so that the cleanup can depend on what happened in
//! between.
//!
//! The guard has no destructor of its own. A verified destructor may neither
//! unwind nor open an invariant, and neither can be promised of a function
//! that a caller hands in: a callback that panics must be free to unwind
//! through whatever called it. So the call is made by `release`, which
//! promises neither, and the one line that calls `release` from a `drop`
//! stands with the type that owns the guard. A guard that is dropped
//! unreleased lets go of what it holds and calls nothing.
//!
//! What a callback does is beyond a contract's reach. A guard is therefore
//! described by the call that it has pending, a [`Pending`]: the contracts
//! say how each operation changes that call, and the contract of `release`
//! says that this call is the one made. The module [`laws`] draws the
//! consequences.

use core::ops::{Deref, DerefMut};
use vstd::prelude::*;

pub mod dismissable;
pub mod dismissible;
pub mod laws;
pub mod pending;

use crate::pending::{accepts_all, Pending};

verus! {

/// Stated scope guard.
///
/// Owns a value, a state and a callback from the moment it is made. Its view
/// is the call that it has pending: `callback(value, &state)`, with the value
/// and the state as they are now.
pub struct ScopeGuard<T, S, F> where F: FnOnce(T, &S) {
    slots: Slots<T, S, F>,
}

impl<T, S, F> View for ScopeGuard<T, S, F> where F: FnOnce(T, &S) {
    type V = Pending<T, S, F>;

    closed spec fn view(&self) -> Pending<T, S, F> {
        self.slots.owed()->0
    }
}

impl<T, S, F> ScopeGuard<T, S, F> where F: FnOnce(T, &S) {
    /// While a guard lives, both of its slots are occupied. Nothing but
    /// `release` empties one, and `release` takes the guard with it.
    #[verifier::type_invariant]
    spec fn armed(self) -> bool {
        self.slots.owed() is Some
    }

    /// Create a new stated scope guard.
    ///
    /// The value is reached through the guard by [`Deref`] and [`DerefMut`].
    /// Nothing is called yet: the guard owes `callback(value, &state)`.
    ///
    /// The callback will meet a value and a state that are not known now, so
    /// it has to accept them all.
    pub fn new(value: T, state: S, callback: F) -> (guard: Self)
        requires
            accepts_all::<T, S, F>(callback),
        ensures
            guard@ == (Pending { value, state, callback }),
    {
        Self { slots: Slots { value: Some(value), state, callback: Some(callback) } }
    }

    /// Set the current state to `state`.
    ///
    /// The state that was there is lost. The value and the callback are not
    /// touched, and nothing is called.
    pub fn set_state(&mut self, state: S)
        ensures
            final(self)@ == old(self)@.with_state(state),
    {
        proof {
            use_type_invariant(&*self);
            use_type_invariant(&self.slots);
        }
        self.slots.state = state;
    }

    /// Ends the guard: makes the call that it has pending, with the value as
    /// it was written last and the state as it was set last.
    ///
    /// The guard is consumed, so neither the value nor the callback can be
    /// reached again, and the call cannot be made a second time. Nothing is
    /// caught on the way: if the callback panics, the panic passes through.
    pub fn release(self)
        ensures
            self@.made(),
    {
        proof {
            use_type_invariant(&self);
        }
        let mut slots = self.slots;
        slots.fire();
    }
}

impl<T, S, F> Deref for ScopeGuard<T, S, F> where F: FnOnce(T, &S) {
    type Target = T;

    /// The value as it is now.
    fn deref(&self) -> (value: &T)
        ensures
            *value == self@.value,
    {
        proof {
            use_type_invariant(self);
        }
        self.slots.value.as_ref().unwrap()
    }
}

impl<T, S, F> DerefMut for ScopeGuard<T, S, F> where F: FnOnce(T, &S) {
    /// The value as it is now, to be changed in place. What the borrow leaves
    /// behind is the guard's value from then on, and so the one that the
    /// callback receives. The state and the callback stay as they are.
    fn deref_mut(&mut self) -> (value: &mut T)
        ensures
            *value == old(self)@.value,
            final(self)@ == old(self)@.with_value(*final(value)),
    {
        proof {
            use_type_invariant(&*self);
            use_type_invariant(&self.slots);
        }
        held_mut(&mut self.slots.value)
    }
}

/// The three fields of a guard.
///
/// `value` and `callback` are slots: occupied when made, and emptied only by
/// `fire`, which moves both out to make the call. `fire` works through
/// `&mut self`, so the two must be able to stand empty. A guard keeps its
/// `Slots` in a private field and never lets them be seen so.
struct Slots<T, S, F> where F: FnOnce(T, &S) {
    value: Option<T>,
    state: S,
    callback: Option<F>,
}

impl<T, S, F> Slots<T, S, F> where F: FnOnce(T, &S) {
    /// A callback that is still here can be called, whatever the value and
    /// the state have become.
    #[verifier::type_invariant]
    spec fn callable(self) -> bool {
        self.callback is Some ==> accepts_all::<T, S, F>(self.callback->0)
    }

    /// The call that is still due: none once a slot has been emptied.
    closed spec fn owed(self) -> Option<Pending<T, S, F>> {
        if self.value is Some && self.callback is Some {
            Some(Pending { value: self.value->0, state: self.state, callback: self.callback->0 })
        } else {
            None
        }
    }

    /// Both slots are empty.
    closed spec fn spent(self) -> bool {
        self.value is None && self.callback is None
    }

    /// Moves the value and the callback out of their slots and makes the call
    /// that was owed, with the state as it was last set.
    ///
    /// A slot gives up what it holds only once, so the callback cannot be
    /// called a second time. Slots found empty owe nothing.
    fn fire(&mut self)
        ensures
            old(self).owed() matches Some(call) ==> call.made(),
            final(self).spent(),
    {
        proof {
            use_type_invariant(&*self);
        }
        let value = take(&mut self.value);
        let callback = take(&mut self.callback);
        if let (Some(value), Some(callback)) = (value, callback) {
            callback(value, &self.state);
        }
    }
}

/// Empties `slot` and returns what it held.
fn take<A>(slot: &mut Option<A>) -> (taken: Option<A>)
    ensures
        taken == *old(slot),
        *final(slot) is None,
    opens_invariants none
    no_unwind
{
    let mut taken = None;
    core::mem::swap(slot, &mut taken);
    taken
}

/// Borrows what an occupied `slot` holds. The slot stays occupied, by
/// whatever the borrow leaves behind.
fn held_mut<A>(slot: &mut Option<A>) -> (held: &mut A)
    requires
        *old(slot) is Some,
    ensures
        *held == (*old(slot))->0,
        *final(slot) == Some(*final(held)),
    opens_invariants none
    no_unwind
{
    match slot {
        Some(held) => held,
        None => vstd::pervasive::unreached(),
    }
}

} // verus!

//! The model of a guard: the call that it has pending.

use vstd::prelude::*;

verus! {

/// What a guard holds at one instant, read as the call that is made if the
/// guard is released now: `callback(value, &state)`.
pub struct Pending<T, S, F> {
    /// The wrapped value. The callback receives it by ownership.
    pub value: T,
    /// The state tag. The callback reads it.
    pub state: S,
    /// The cleanup routine.
    pub callback: F,
}

/// `callback` may be called on every value together with every state.
///
/// A guard cannot know what its value and its state will be when it is
/// released, so this is what it asks of a callback when it is made.
pub open spec fn accepts_all<T, S, F: FnOnce(T, &S)>(callback: F) -> bool {
    forall|value: T, state: S| call_requires(callback, (value, &state))
}

impl<T, S, F: FnOnce(T, &S)> Pending<T, S, F> {
    /// The same call with the state replaced. The state it had is lost.
    pub open spec fn with_state(self, state: S) -> Self {
        Pending { value: self.value, state, callback: self.callback }
    }

    /// The same call with the value replaced.
    pub open spec fn with_value(self, value: T) -> Self {
        Pending { value, state: self.state, callback: self.callback }
    }

    /// The call that is pending once each state of `states` has been set,
    /// first to last.
    pub open spec fn after_states(self, states: Seq<S>) -> Self
        decreases states.len(),
    {
        if states.len() == 0 {
            self
        } else {
            self.after_states(states.drop_last()).with_state(states.last())
        }
    }

    /// The call has been made and has returned: whatever the callback
    /// promises of a call on this value and this state now holds.
    pub open spec fn made(self) -> bool {
        call_ensures(self.callback, (self.value, &self.state), ())
    }
}

} // verus!

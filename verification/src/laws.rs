//! What holds of the call that a guard has pending, whatever is done to the
//! guard while it lives.
//!
//! The contracts of the guard's operations say how each of them changes the
//! pending call, and the contract of `release` says that the pending call is
//! the one made. The lemmas here put these together: each says what a guard
//! with a given past has called once `release` has returned.

use vstd::prelude::*;

use crate::dismissable::{called, fires};
use crate::dismissible::{forwarded, forwards_to};
use crate::pending::Pending;

verus! {

/// A guard that is made and then left alone owes its callback the value and
/// the state that it was made with: making its pending call is calling
/// `callback(value, &state)`.
pub proof fn lemma_untouched_guard_passes_initial<T, S, F: FnOnce(T, &S)>(
    value: T,
    state: S,
    callback: F,
)
    ensures
        (Pending { value, state, callback }).after_states(Seq::empty()) == (Pending {
            value,
            state,
            callback,
        }),
        (Pending { value, state, callback }).made() <==> call_ensures(
            callback,
            (value, &state),
            (),
        ),
{
}

/// However many states are set, only the last one counts: the pending call
/// has the state that was set last, or the one it started with if none was
/// set, and the value and the callback that it had. Making it is calling the
/// callback with that state, and with no other.
pub proof fn lemma_last_state_wins<T, S, F: FnOnce(T, &S)>(call: Pending<T, S, F>, states: Seq<S>)
    ensures
        call.after_states(states) == (Pending {
            value: call.value,
            state: if states.len() == 0 {
                call.state
            } else {
                states.last()
            },
            callback: call.callback,
        }),
        states.len() > 0 ==> (call.after_states(states).made() <==> call_ensures(
            call.callback,
            (call.value, &states.last()),
            (),
        )),
    decreases states.len(),
{
    if states.len() > 0 {
        lemma_last_state_wins(call, states.drop_last());
    }
}

/// A value written through the guard is the one that the callback receives:
/// making the pending call after the write is calling the callback on the
/// written value, with the state that was there.
pub proof fn lemma_written_value_is_passed<T, S, F: FnOnce(T, &S)>(call: Pending<T, S, F>, value: T)
    ensures
        call.with_value(value).made() <==> call_ensures(call.callback, (value, &call.state), ()),
{
}

/// The value of a guard is the one written last, however many states are set
/// after the write; and setting states leaves a value that was never written
/// as it was.
pub proof fn lemma_value_is_last_written<T, S, F: FnOnce(T, &S)>(
    call: Pending<T, S, F>,
    value: T,
    states: Seq<S>,
)
    ensures
        call.with_value(value).after_states(states).value == value,
        call.after_states(states).value == call.value,
{
    lemma_last_state_wins(call.with_value(value), states);
    lemma_last_state_wins(call, states);
}

/// Dismissing twice is dismissing once: the state is `false` after the first
/// call, and the second changes nothing.
pub proof fn lemma_dismiss_is_idempotent<T, C: FnOnce(T, &bool)>(call: Pending<T, bool, C>)
    ensures
        !call.with_state(false).state,
        call.with_state(false).with_state(false) == call.with_state(false),
{
}

/// A dismissible guard that was not dismissed when its pending call was made
/// has handed its value to the callback it was made with.
pub proof fn lemma_undismissed_forwards<T, C: FnOnce(T, &bool), F: FnOnce(T)>(
    call: Pending<T, bool, C>,
    callback: F,
)
    requires
        forwards_to(call.callback, callback),
        call.state,
        call.made(),
    ensures
        call_ensures(callback, (call.value,), ()),
{
}

/// A dismissible guard that was dismissed when its pending call was made has
/// not called the callback it was made with. The call made was one of
/// `forward_if` with the flag down, from which the callback and the value
/// came back unused; and what came back went to `discard`, which can call
/// nothing.
pub proof fn lemma_dismissed_forwards_nothing<T, C: FnOnce(T, &bool), F: FnOnce(T)>(
    call: Pending<T, bool, C>,
    callback: F,
)
    requires
        forwards_to(call.callback, callback),
        !call.state,
        call.made(),
    ensures
        exists|kept: Option<(F, T)>|
            {
                &&& #[trigger] forwarded(false, callback, call.value, kept)
                &&& kept == Some((callback, call.value))
            },
{
    let kept = choose|kept: Option<(F, T)>|
        forwarded(call.state, callback, call.value, kept);
    assert(forwarded(false, callback, call.value, kept));
}

/// A dismissable guard that was not dismissed when its pending call was made
/// has called the callback it was made with.
pub proof fn lemma_undismissed_fires<C: FnOnce((), &bool), F: FnOnce()>(
    call: Pending<(), bool, C>,
    callback: F,
)
    requires
        fires(call.callback, callback),
        call.state,
        call.made(),
    ensures
        call_ensures(callback, (), ()),
{
}

/// A dismissable guard that was dismissed when its pending call was made has
/// not called the callback it was made with. The call made was one of
/// `call_if` with the flag down, from which the callback came back unused;
/// and what came back went to `discard`, which can call nothing.
pub proof fn lemma_dismissed_fires_nothing<C: FnOnce((), &bool), F: FnOnce()>(
    call: Pending<(), bool, C>,
    callback: F,
)
    requires
        fires(call.callback, callback),
        !call.state,
        call.made(),
    ensures
        exists|kept: Option<F>|
            {
                &&& #[trigger] called(false, callback, kept)
                &&& kept == Some(callback)
            },
{
    let kept = choose|kept: Option<F>| called(call.state, callback, kept);
    assert(called(false, callback, kept));
}

} // verus!

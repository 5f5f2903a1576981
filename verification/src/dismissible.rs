//! Dismissible stated scope guard.
//!
//! The common case has two states: by default the cleanup runs, and once the
//! guard has been dismissed it does not. A [`DismissibleScopeGuard`] keeps a
//! `bool` for that, `true` until [`dismiss`](DismissibleScopeGuard::dismiss)
//! is called. What the flag decides is said by [`forward_if`]. The cleanup
//! of such a guard is one call of it, and one of [`discard`] on what comes
//! back.

use vstd::prelude::*;

use crate::ScopeGuard;

verus! {

/// Dismissible stated scope guard.
pub type DismissibleScopeGuard<T, F> = ScopeGuard<T, bool, F>;

/// Calls `callback` on `value` if `fire` is set, and not otherwise.
///
/// What was not used comes back. With `fire` set nothing does: the callback
/// was called and has taken the value. Without it both do, the callback
/// uncalled: a callback that can be called once and is still in hand has not
/// been called. Of the callback nothing is asked then.
pub fn forward_if<T, F: FnOnce(T)>(fire: bool, callback: F, value: T) -> (kept: Option<(F, T)>)
    requires
        fire ==> call_requires(callback, (value,)),
    ensures
        fire ==> kept is None && call_ensures(callback, (value,), ()),
        !fire ==> kept == Some((callback, value)),
{
    if fire {
        callback(value);
        None
    } else {
        Some((callback, value))
    }
}

/// Lets go of `unused`.
///
/// Nothing is known of `A` here, so nothing can be called on `unused`, and
/// nothing in it can be called: it is dropped as it came.
pub fn discard<A>(unused: A) {
}

/// A call of [`forward_if`] on `fire`, `callback` and `value` returned `kept`,
/// and `kept` was handed to [`discard`].
pub open spec fn forwarded<T, F: FnOnce(T)>(
    fire: bool,
    callback: F,
    value: T,
    kept: Option<(F, T)>,
) -> bool {
    &&& call_ensures(forward_if::<T, F>, (fire, callback, value), kept)
    &&& call_ensures(discard::<Option<(F, T)>>, (kept,), ())
}

/// Every call of `cleanup`, on a value and a state, is a call of
/// [`forward_if`] on that state, `callback` and that value, and one of
/// [`discard`] on what came back. With the state `true` the callback is
/// called on the value. With `false` it is not: it comes back with the
/// value, and both are let go.
pub open spec fn forwards_to<T, C: FnOnce(T, &bool), F: FnOnce(T)>(cleanup: C, callback: F) -> bool {
    forall|value: T, state: bool| #[trigger]
        call_ensures(cleanup, (value, &state), ()) ==> exists|kept: Option<(F, T)>| #[trigger]
            forwarded(state, callback, value, kept)
}

/// Create a new dismissible stated scope guard. Its cleanup calls
/// [`forward_if`] with the state for the flag, and [`discard`] on what comes
/// back: when the guard is released, `callback` is called on the value,
/// unless [`dismiss`](DismissibleScopeGuard::dismiss) was called before. Then
/// the callback and the value are let go, the callback uncalled. So
/// `callback` need not look at the state.
pub fn new_dismissible<T, F>(
    value: T,
    callback: F,
) -> (guard: DismissibleScopeGuard<T, impl FnOnce(T, &bool)>) where F: FnOnce(T)
    requires
        forall|last: T| call_requires(callback, (last,)),
    ensures
        guard@.value == value,
        guard@.state,
        forwards_to(guard@.callback, callback),
{
    let cleanup = |value: T, state: &bool|
        ensures
            exists|kept: Option<(F, T)>| #[trigger] forwarded(*state, callback, value, kept),
        {
            let kept = forward_if(*state, callback, value);
            discard(kept);
            assert(forwarded(*state, callback, value, kept));
        };
    ScopeGuard::new(value, true, cleanup)
}

impl<T, F> DismissibleScopeGuard<T, F> where F: FnOnce(T, &bool) {
    /// Dismiss the scope guard callback.
    ///
    /// Only the state changes, to `false`, whatever it was: a second call
    /// changes nothing. The cleanup of a guard made by [`new_dismissible`] or
    /// by [`new_dismissable`](crate::dismissable::new_dismissable) then finds
    /// the flag down.
    pub fn dismiss(&mut self)
        ensures
            final(self)@ == old(self)@.with_state(false),
    {
        self.set_state(false);
    }
}

} // verus!

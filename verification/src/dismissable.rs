//! Dismissable stated scope guard: a dismissible guard that wraps nothing.
//!
//! It stands for a cleanup that takes no value. The guard is dismissed by
//! the `dismiss` of [`DismissibleScopeGuard`](crate::dismissible::DismissibleScopeGuard),
//! of which this is the case with the unit value. What the flag decides is
//! said by [`call_if`]. The cleanup of such a guard is one call of it, and
//! one of [`discard`] on what comes back.

use vstd::prelude::*;

use crate::dismissible::discard;
use crate::ScopeGuard;

verus! {

/// Dismissable stated scope guard.
pub type DismissableScopeGuard<F> = ScopeGuard<(), bool, F>;

/// Calls `callback` if `fire` is set, and not otherwise.
///
/// A callback that was not used comes back, uncalled: a callback that can be
/// called once and is still in hand has not been called. Of the callback
/// nothing is asked then.
pub fn call_if<F: FnOnce()>(fire: bool, callback: F) -> (kept: Option<F>)
    requires
        fire ==> call_requires(callback, ()),
    ensures
        fire ==> kept is None && call_ensures(callback, (), ()),
        !fire ==> kept == Some(callback),
{
    if fire {
        callback();
        None
    } else {
        Some(callback)
    }
}

/// A call of [`call_if`] on `fire` and `callback` returned `kept`, and `kept`
/// was handed to [`discard`].
pub open spec fn called<F: FnOnce()>(fire: bool, callback: F, kept: Option<F>) -> bool {
    &&& call_ensures(call_if::<F>, (fire, callback), kept)
    &&& call_ensures(discard::<Option<F>>, (kept,), ())
}

/// Every call of `cleanup`, on a state, is a call of [`call_if`] on that
/// state and `callback`, and one of [`discard`] on what came back. With the
/// state `true` the callback is called. With `false` it is not: it comes
/// back and is let go.
pub open spec fn fires<C: FnOnce((), &bool), F: FnOnce()>(cleanup: C, callback: F) -> bool {
    forall|state: bool| #[trigger]
        call_ensures(cleanup, ((), &state), ()) ==> exists|kept: Option<F>| #[trigger]
            called(state, callback, kept)
}

/// Create a new dismissable stated scope guard. Its cleanup calls
/// [`call_if`] with the state for the flag, and [`discard`] on what comes
/// back: when the guard is released, `callback` is called, unless `dismiss`
/// was called before. Then the callback is let go uncalled.
pub fn new_dismissable<F>(callback: F) -> (guard: DismissableScopeGuard<impl FnOnce((), &bool)>) where
    F: FnOnce(),
    requires
        call_requires(callback, ()),
    ensures
        guard@.value == (),
        guard@.state,
        fires(guard@.callback, callback),
{
    let cleanup = |_unit: (), state: &bool|
        ensures
            exists|kept: Option<F>| #[trigger] called(*state, callback, kept),
        {
            let kept = call_if(*state, callback);
            discard(kept);
            assert(called(*state, callback, kept));
        };
    ScopeGuard::new((), true, cleanup)
}

} // verus!

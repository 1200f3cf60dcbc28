//! The reentrancy guard: a thread that is inside an override does not enter
//! it again; the call goes to the overridden function instead.
use vstd::prelude::*;

verus! {

/// The flag that one thread keeps for one override: set while the thread is
/// inside the override's body.
#[derive(Debug, PartialEq, Eq)]
pub struct RecursionFlag {
    pub active: bool,
}

/// The token of a thread that has entered. It is given back to the flag
/// that it was taken from, which is still set then, and that clears the
/// flag.
#[derive(Debug)]
pub struct RecursionGuard {
    token: (),
}

/// What a call of the wrapper does first.
#[derive(Debug)]
pub enum Entry {
    /// Run the body; where a guard was taken, give it back when the body is
    /// left, on whatever path.
    Body(Option<RecursionGuard>),
    /// Do not run the body: hand the parameters to the overridden
    /// function and return what it returns.
    Forward,
}

/// Which way a call goes, as a plain value.
pub enum Route {
    Body,
    Forward,
}

/// The way a call goes, given whether the thread is inside the override
/// already and whether reentry is allowed.
pub open spec fn route(active: bool, allow_reentry: bool) -> Route {
    if allow_reentry || !active {
        Route::Body
    } else {
        Route::Forward
    }
}

/// The flag after a call has been let in or turned away: without the guard
/// it is untouched, with the guard it is set.
pub open spec fn flag_after_entry(active: bool, allow_reentry: bool) -> bool {
    if allow_reentry {
        active
    } else {
        true
    }
}

impl RecursionFlag {
    /// The flag of a thread that has not entered yet.
    pub fn new() -> (flag: RecursionFlag)
        ensures
            !flag.active,
    {
        RecursionFlag { active: false }
    }
}

/// Tries to take the guard: sets the flag, and gives a token exactly if the
/// flag was clear before.
pub fn guard_recursion(flag: &mut RecursionFlag) -> (guard: Option<RecursionGuard>)
    ensures
        final(flag).active,
        guard is Some <==> !old(flag).active,
{
    let was_active = flag.active;
    flag.active = true;
    if !was_active {
        Some(RecursionGuard { token: () })
    } else {
        None
    }
}

impl RecursionGuard {
    /// Gives the token back to the flag that it was taken from: the flag,
    /// set until now, is clear afterwards.
    pub fn release(self, flag: &mut RecursionFlag)
        requires
            old(flag).active,
        ensures
            !final(flag).active,
    {
        flag.active = false;
    }
}

impl Entry {
    /// Which way the call goes.
    pub open spec fn route(self) -> Route {
        match self {
            Entry::Body(_) => Route::Body,
            Entry::Forward => Route::Forward,
        }
    }
}

/// Decides what a call of the wrapper does first.
///
/// With reentry allowed the body runs and the flag is not touched. Without
/// it the guard is tried: the body runs with the guard held if the flag was
/// clear, and the call is handed on if the thread was inside already.
pub fn enter(flag: &mut RecursionFlag, allow_reentry: bool) -> (entry: Entry)
    ensures
        entry.route() == route(old(flag).active, allow_reentry),
        final(flag).active == flag_after_entry(old(flag).active, allow_reentry),
        entry matches Entry::Body(guard) ==> (guard is Some <==> !allow_reentry),
{
    if allow_reentry {
        Entry::Body(None)
    } else {
        match guard_recursion(flag) {
            Some(guard) => Entry::Body(Some(guard)),
            None => Entry::Forward,
        }
    }
}

/// Leaves the body: gives the guard back where one was taken. The flag is
/// the one that the guard was taken from, so it is still set.
pub fn leave(flag: &mut RecursionFlag, guard: Option<RecursionGuard>)
    requires
        guard is Some ==> old(flag).active,
    ensures
        guard is Some ==> !final(flag).active,
        guard is None ==> *final(flag) == *old(flag),
{
    match guard {
        Some(guard) => guard.release(flag),
        None => {},
    }
}

/// How often the body ran and how often the overridden function was
/// called.
pub ghost struct Tally {
    pub bodies: nat,
    pub originals: nat,
}

/// The tally of one call of an override on a thread whose flag is `active`,
/// where each run of the body calls the override again, `depth` levels
/// deep, and the innermost run calls the overridden function through
/// `super`.
pub open spec fn tally(depth: nat, active: bool, allow_reentry: bool) -> Tally
    decreases depth,
{
    match route(active, allow_reentry) {
        Route::Forward => Tally { bodies: 0, originals: 1 },
        Route::Body => {
            let inner = if depth == 0 {
                Tally { bodies: 0, originals: 1 }
            } else {
                tally((depth - 1) as nat, flag_after_entry(active, allow_reentry), allow_reentry)
            };
            Tally { bodies: inner.bodies + 1, originals: inner.originals }
        },
    }
}

/// With the guard, a thread that is inside the override and calls it again
/// reaches the overridden function: the body does not run.
pub proof fn lemma_reentrant_call_forwards(depth: nat)
    ensures
        route(true, false) is Forward,
        flag_after_entry(true, false),
        tally(depth, true, false) == (Tally { bodies: 0, originals: 1 }),
{
}

/// With the guard, a call from outside runs the body once, and however
/// deep the body calls the override again, the overridden function is
/// called exactly once and the body never runs a second time.
pub proof fn lemma_guarded_call_runs_body_once(depth: nat)
    ensures
        tally(depth, false, false) == (Tally { bodies: 1, originals: 1 }),
{
    if depth > 0 {
        lemma_reentrant_call_forwards((depth - 1) as nat);
    }
}

/// With reentry allowed, a call of the override from inside its body enters
/// the body again: nothing is handed on before the innermost run.
pub proof fn lemma_allowed_reentry_runs_body_again(depth: nat, active: bool)
    ensures
        route(active, true) is Body,
        tally(depth, active, true) == (Tally { bodies: depth + 1, originals: 1 }),
    decreases depth,
{
    if depth > 0 {
        lemma_allowed_reentry_runs_body_again((depth - 1) as nat, active);
    }
}

} // verus!

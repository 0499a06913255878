//! Release-once ownership of native handles.
use vstd::prelude::*;

verus! {

/// Owns one native handle until it is released. The handle is handed out for
/// release exactly once; afterwards the guard holds nothing, so a second
/// release does nothing.
#[verifier::reject_recursive_types(H)]
#[derive(Debug)]
pub struct HandleGuard<H> {
    handle: Option<H>,
}

impl<H> HandleGuard<H> {
    /// The handle still owned, if any.
    pub closed spec fn held(self) -> Option<H> {
        self.handle
    }

    /// A guard that owns `handle`.
    pub fn new(handle: H) -> (r: HandleGuard<H>)
        ensures
            r.held() == Some(handle),
    {
        HandleGuard { handle: Some(handle) }
    }

    /// Whether the handle was released.
    pub fn is_released(&self) -> (r: bool)
        ensures
            r == (self.held() is None),
    {
        self.handle.is_none()
    }

    /// The handle still owned, for use without releasing it.
    pub fn handle(&self) -> (r: Option<&H>)
        ensures
            (r is None) == (self.held() is None),
            r matches Some(h) ==> self.held() == Some(*h),
    {
        match &self.handle {
            Some(h) => Some(h),
            None => None,
        }
    }

    /// Hands out the handle to be released, the first time only.
    pub fn release(&mut self) -> (r: Option<H>)
        ensures
            r == old(self).held(),
            final(self).held() is None,
    {
        self.handle.take()
    }
}

/// The number of handles that `n` successive releases of a guard hand out.
pub open spec fn releases_handed_out<H>(held: Option<H>, n: nat) -> nat
    decreases n,
{
    if n == 0 {
        0
    } else if held is Some {
        1 + releases_handed_out::<H>(None, (n - 1) as nat)
    } else {
        releases_handed_out::<H>(None, (n - 1) as nat)
    }
}

/// A guard that owns a handle hands it out exactly once, however many times
/// release is asked for; one that owns none never does.
pub proof fn lemma_released_exactly_once<H>(g: HandleGuard<H>, n: nat)
    requires
        n >= 1,
    ensures
        releases_handed_out(g.held(), n) == (if g.held() is Some {
            1nat
        } else {
            0nat
        }),
    decreases n,
{
    lemma_none_hands_out_nothing::<H>((n - 1) as nat);
}

proof fn lemma_none_hands_out_nothing<H>(n: nat)
    ensures
        releases_handed_out::<H>(None, n) == 0,
    decreases n,
{
    if n > 0 {
        lemma_none_hands_out_nothing::<H>((n - 1) as nat);
    }
}

} // verus!

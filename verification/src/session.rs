//! The session binding: the single slot naming the voice call the bridge
//! is attached to.
//!
//! The caller keeps one `SessionBinding` behind its lock; `attach` and
//! `detach` are the only operations that change it, and every playback or
//! capture step asks `play` for the handle to use at the moment of use.
//! A call handle is a plain identifier the caller assigns; the caller maps
//! it back to its own session object.

use vstd::prelude::*;

verus! {

/// The slot a detach leaves behind: no call bound.
pub open spec fn bound_after_detach(s: Option<u64>) -> Option<u64> {
    None
}

/// The slot an attach leaves behind: exactly the newly bound call.
pub open spec fn bound_after_attach(s: Option<u64>, handle: u64) -> Option<u64> {
    Some(handle)
}

/// The call a playback or capture step uses: the currently bound one, or
/// none at all.
pub open spec fn play_target(s: Option<u64>) -> Option<u64> {
    s
}

/// The single mutable slot associating the bridge with the current call.
pub struct SessionBinding {
    pub current: Option<u64>,
}

impl SessionBinding {
    /// The currently bound call, if any.
    pub open spec fn bound(&self) -> Option<u64> {
        self.current
    }

    /// A fresh binding: no call bound.
    pub fn new() -> (r: SessionBinding)
        ensures
            r.bound() is None,
    {
        SessionBinding { current: None }
    }

    /// Rebinds the slot to the given call, replacing any earlier binding.
    pub fn attach(&mut self, handle: u64)
        ensures
            final(self).bound() == bound_after_attach(old(self).bound(), handle),
    {
        self.current = Some(handle);
    }

    /// Clears the slot; playback and capture steps use no call afterwards.
    pub fn detach(&mut self)
        ensures
            final(self).bound() == bound_after_detach(old(self).bound()),
    {
        self.current = None;
    }

    /// The currently bound call, read under the caller's lock.
    pub fn current_call(&self) -> (r: Option<u64>)
        ensures
            r == self.bound(),
    {
        self.current
    }

    /// Playback step for one decoded frame: names the call the frame must
    /// be submitted to. With no call bound the frame is simply dropped —
    /// nothing is used, nothing fails, nothing blocks, and the binding
    /// itself never changes.
    pub fn play(&self, frame: &Vec<i16>) -> (r: Option<u64>)
        ensures
            r == play_target(self.bound()),
            r is Some <==> self.bound() is Some,
    {
        match self.current {
            Some(handle) => Some(handle),
            None => None,
        }
    }
}

/// No stale handle is ever used: a playback or capture step uses exactly
/// the currently bound call; after a detach it uses none, after an attach
/// it uses only the newly bound call, and a handle that is not bound is
/// never the one used, however the calls interleave between the locked
/// reads.
pub proof fn lemma_no_stale_handle(s: Option<u64>, stale: u64, fresh: u64)
    ensures
        play_target(bound_after_detach(s)) is None,
        play_target(bound_after_attach(s, fresh)) == Some(fresh),
        s != Some(stale) ==> play_target(s) != Some(stale),
{
}

} // verus!

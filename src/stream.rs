//! The bookkeeping of the update stream: which update to ask for next, and
//! how long each long poll lasts.
use crate::api::Api;
use vstd::prelude::*;

verus! {

/// How long the server holds a long poll open, in seconds, unless set.
pub const LONG_POLL_TIMEOUT_SECS: u64 = 5;

/// A lazy sequence of updates pushed by the server. It holds a duplicate of
/// the handle, and the highest update id seen so far.
pub struct UpdatesStream<C> {
    api: Api<C>,
    last_update: i64,
    timeout_secs: u64,
}

impl<C> UpdatesStream<C> {
    /// A stream that has seen no update yet.
    pub fn new(api: &Api<C>) -> (r: UpdatesStream<C>)
        ensures
            r.api_spec()@ == api@,
            r.last_update_spec() == 0,
            r.timeout_spec() == LONG_POLL_TIMEOUT_SECS,
    {
        UpdatesStream { api: api.clone(), last_update: 0, timeout_secs: LONG_POLL_TIMEOUT_SECS }
    }

    pub closed spec fn api_spec(&self) -> Api<C> {
        self.api
    }

    /// The highest update id seen so far (0 before any).
    pub closed spec fn last_update_spec(&self) -> int {
        self.last_update as int
    }

    /// The long-poll timeout, in seconds.
    pub closed spec fn timeout_spec(&self) -> nat {
        self.timeout_secs as nat
    }

    /// The handle that the stream sends its requests through.
    pub fn api(&self) -> (r: &Api<C>)
        ensures
            r@ == self.api_spec()@,
    {
        &self.api
    }

    /// The highest update id seen so far (0 before any).
    pub fn last_update(&self) -> (r: i64)
        ensures
            r as int == self.last_update_spec(),
    {
        self.last_update
    }

    /// The offset to ask the server for: one past the last update seen, so
    /// that no update comes twice. It stays at the largest `i64`.
    pub fn next_offset(&self) -> (r: i64)
        ensures
            self.last_update_spec() < i64::MAX ==> r as int == self.last_update_spec() + 1,
            self.last_update_spec() == i64::MAX ==> r == i64::MAX,
    {
        if self.last_update < i64::MAX {
            self.last_update + 1
        } else {
            i64::MAX
        }
    }

    /// Note an update that arrived: the last update becomes the larger of
    /// the two ids.
    pub fn observe(&mut self, update_id: i64)
        ensures
            final(self).last_update_spec() == if update_id as int > old(self).last_update_spec() {
                update_id as int
            } else {
                old(self).last_update_spec()
            },
            final(self).api_spec() == old(self).api_spec(),
            final(self).timeout_spec() == old(self).timeout_spec(),
    {
        if update_id > self.last_update {
            self.last_update = update_id;
        }
    }

    /// The long-poll timeout, in seconds.
    pub fn timeout(&self) -> (r: u64)
        ensures
            r as nat == self.timeout_spec(),
    {
        self.timeout_secs
    }

    /// Set the long-poll timeout, in seconds.
    pub fn set_timeout(&mut self, secs: u64)
        ensures
            final(self).timeout_spec() == secs as nat,
            final(self).last_update_spec() == old(self).last_update_spec(),
            final(self).api_spec() == old(self).api_spec(),
    {
        self.timeout_secs = secs;
    }

    /// The deadline for one long poll, in seconds: one more than the time
    /// the server holds it open, so that the server answers first.
    pub fn request_deadline_secs(&self) -> (r: u64)
        ensures
            self.timeout_spec() < u64::MAX ==> r as nat == self.timeout_spec() + 1,
            self.timeout_spec() == u64::MAX ==> r == u64::MAX,
    {
        self.timeout_secs.saturating_add(1)
    }
}

} // verus!

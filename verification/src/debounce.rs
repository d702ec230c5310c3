//! Debounce controller: decides when an edit may turn into an autocomplete
//! request, and which outstanding request is still the current one.
//!
//! Every edit that changes the buffer's content fingerprint arms a fixed
//! quiescence timer and invalidates the request generation that was live, so
//! a stale response can never be accepted.  When the timer elapses and the
//! trimmed buffer is non-empty, a request carrying a fresh generation token
//! is issued; at most one token is live at a time.

use vstd::prelude::*;

verus! {

/// Debounce and request-generation state.
pub struct DebounceController {
    /// Quiescence delay: how long the buffer must rest before a request.
    pub delay: u64,
    /// Time at which the armed timer elapses; `None` while disarmed.
    pub deadline: Option<u64>,
    /// Fingerprint of the buffer contents last seen by [`Self::on_edit`].
    pub last_hash: u32,
    /// Generation token the next issued request will carry.
    pub next_gen: u64,
    /// Token of the one request whose response is still wanted.
    pub live: Option<u64>,
}

impl DebounceController {
    /// Every live token was issued earlier, and while the timer is armed no
    /// request is awaited: arming happens on an edit, which invalidates the
    /// outstanding request.
    pub open spec fn wf(self) -> bool {
        &&& (self.live matches Some(t) ==> t < self.next_gen)
        &&& (self.deadline is Some ==> self.live is None)
    }

    pub open spec fn armed(self) -> bool {
        self.deadline is Some
    }

    /// The armed timer may fire at `now`.
    pub open spec fn can_fire(self, now: u64) -> bool {
        self.deadline matches Some(d) && now >= d
    }

    /// State after an edit observed at `now` left the buffer with
    /// fingerprint `h`: a changed fingerprint re-arms the timer and
    /// invalidates the live request, an unchanged one does nothing.
    pub open spec fn observe_spec(self, now: u64, h: u32) -> DebounceController {
        if h != self.last_hash {
            DebounceController {
                delay: self.delay,
                deadline: Some((now + self.delay) as u64),
                last_hash: h,
                next_gen: self.next_gen,
                live: None,
            }
        } else {
            self
        }
    }

    /// State after the armed timer fired with the trimmed buffer empty
    /// (`blank`) or not, and the token issued: `blank` disarms without a
    /// request, otherwise a fresh token becomes live.
    pub open spec fn fire_spec(self, blank: bool) -> (DebounceController, Option<u64>) {
        if blank {
            (DebounceController { deadline: None, ..self }, None)
        } else {
            (
                DebounceController {
                    deadline: None,
                    live: Some(self.next_gen),
                    next_gen: (self.next_gen + 1) as u64,
                    ..self
                },
                Some(self.next_gen),
            )
        }
    }

    /// State after the response carrying `token` arrived, and whether it is
    /// the current one: only the live token is accepted, and accepting it
    /// ends the request.
    pub open spec fn accept_spec(self, token: u64) -> (DebounceController, bool) {
        if self.live == Some(token) {
            (DebounceController { live: None, ..self }, true)
        } else {
            (self, false)
        }
    }

    pub fn new(delay: u64) -> (r: Self)
        ensures
            r == (DebounceController {
                delay,
                deadline: None,
                last_hash: 0u32,
                next_gen: 0u64,
                live: None,
            }),
    {
        DebounceController { delay, deadline: None, last_hash: 0, next_gen: 0, live: None }
    }

    /// Records the buffer fingerprint after an edit; returns whether the
    /// contents changed since the last observation.
    pub fn on_edit(&mut self, now: u64, h: u32) -> (changed: bool)
        requires
            now + old(self).delay <= u64::MAX,
        ensures
            *final(self) == old(self).observe_spec(now, h),
            changed == (h != old(self).last_hash),
    {
        if h != self.last_hash {
            self.last_hash = h;
            self.deadline = Some(now + self.delay);
            self.live = None;
            true
        } else {
            false
        }
    }

    /// The armed timer elapsed; issues a fresh request token unless the
    /// trimmed buffer was empty.
    pub fn fire(&mut self, blank: bool) -> (issued: Option<u64>)
        requires
            old(self).armed(),
            old(self).next_gen < u64::MAX,
        ensures
            (*final(self), issued) == old(self).fire_spec(blank),
    {
        self.deadline = None;
        if blank {
            None
        } else {
            let token = self.next_gen;
            self.live = Some(token);
            self.next_gen = token + 1;
            Some(token)
        }
    }

    /// A response carrying `token` arrived; returns whether it is current.
    /// A stale token leaves the state unchanged and must be discarded.
    pub fn accept(&mut self, token: u64) -> (fresh: bool)
        ensures
            (*final(self), fresh) == old(self).accept_spec(token),
    {
        match self.live {
            Some(live) => {
                if live == token {
                    self.live = None;
                    true
                } else {
                    false
                }
            },
            None => false,
        }
    }

    /// Debounce, rapid edits: after edits at `t`, `t + d1` and `t + d2`,
    /// each changing the fingerprint, the timer cannot fire before
    /// `t + d2 + delay`; with the delay window 200 and edits at `t`,
    /// `t + 50`, `t + 100`, no request fires before `t + 300`.
    pub proof fn lemma_debounce_rapid_edits(
        self,
        t: u64,
        d1: u64,
        d2: u64,
        h1: u32,
        h2: u32,
        h3: u32,
    )
        requires
            d1 <= d2,
            t + d2 + self.delay <= u64::MAX,
            h1 != self.last_hash,
            h2 != h1,
            h3 != h2,
        ensures
            ({
                let s3 = self.observe_spec(t, h1).observe_spec((t + d1) as u64, h2).observe_spec(
                    (t + d2) as u64,
                    h3,
                );
                &&& s3.deadline == Some((t + d2 + self.delay) as u64)
                &&& forall|now: u64| now < t + d2 + self.delay ==> !s3.can_fire(now)
            }),
    {
    }

    /// Debounce, single edit: one fingerprint-changing edit at `t` arms the
    /// timer for exactly `t + delay`; it cannot fire earlier, it can fire
    /// then, and once fired it is disarmed, so exactly one request is
    /// issued for the edit.
    pub proof fn lemma_debounce_single_edit(self, t: u64, h: u32, blank: bool)
        requires
            t + self.delay <= u64::MAX,
            h != self.last_hash,
        ensures
            ({
                let s1 = self.observe_spec(t, h);
                &&& s1.deadline == Some((t + self.delay) as u64)
                &&& forall|now: u64| now < t + self.delay ==> !s1.can_fire(now)
                &&& s1.can_fire((t + self.delay) as u64)
                &&& !blank ==> s1.fire_spec(blank).1 == Some(s1.next_gen)
                &&& forall|now: u64| !(#[trigger] s1.fire_spec(blank).0.can_fire(now))
            }),
    {
    }

    /// Staleness: once an edit changes the fingerprint, the previously live
    /// token is no longer current, and no token issued afterwards ever
    /// equals it, so the superseded request's response is never accepted.
    pub proof fn lemma_superseded_token_never_accepted(self, now: u64, h: u32, a: u64, blank: bool)
        requires
            self.wf(),
            self.live == Some(a),
            h != self.last_hash,
        ensures
            ({
                let s1 = self.observe_spec(now, h);
                let (s2, issued) = s1.fire_spec(blank);
                &&& s1.live is None
                &&& s1.accept_spec(a).1 == false
                &&& s1.accept_spec(a).0 == s1
                &&& issued != Some(a)
                &&& s2.accept_spec(a).1 == false
                &&& s2.accept_spec(a).0 == s2
            }),
    {
    }
}

} // verus!

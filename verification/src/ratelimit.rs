//! The rate limiter: a counter per (actor, resource) key over a fixed
//! window. Two call sites share this one contract: per-connection
//! throughput (60 events per 60 seconds, keyed by user and connection id)
//! and per-room message submission (5 sends per 5 seconds, keyed by user
//! and room).
//!
//! `RateLimiter` is the windowed counter itself, driven by an explicit
//! clock. The `rate_read_decision` / `rate_expire_decision` pair states the
//! same policy as single decisions over the answers an external counter
//! store gives, for a driver that keeps the counters in such a store: a
//! counter that cannot be read safely rejects, and a key whose expiry could
//! not be set is deleted and the call rejected (fail closed).
use vstd::prelude::*;

use crate::text::{chars_to_string, copy_range, push_str_chars};
use crate::textnum::{dec_digits, dec_value, is_digit_seq, render_u64};
use vstd::string::StrSliceExecFns;

verus! {

/// Events allowed per connection within one throughput window.
pub const CONNECTION_EVENT_CEILING: u64 = 60;

/// The per-connection throughput window, in seconds.
pub const CONNECTION_WINDOW_SECONDS: u64 = 60;

/// Messages allowed into one room by one user within one send window.
pub const ROOM_SEND_CEILING: u64 = 5;

/// The per-room send window, in seconds.
pub const ROOM_SEND_WINDOW_SECONDS: u64 = 5;

/// The counter-store key text for an actor and a resource.
pub open spec fn rate_key_text(actor: nat, resource: Seq<char>) -> Seq<char> {
    "ratelimit:"@ + dec_digits(actor) + ":"@ + resource
}

/// Builds the counter-store key for an actor and a resource.
pub fn rate_key(actor: u64, resource: &str) -> (s: String)
    ensures
        s@ == rate_key_text(actor as nat, resource@),
{
    let mut v: Vec<char> = Vec::new();
    push_str_chars(&mut v, "ratelimit:");
    let mut digits = render_u64(actor);
    v.append(&mut digits);
    push_str_chars(&mut v, ":");
    push_str_chars(&mut v, resource);
    chars_to_string(v)
}

/// The step to take after reading a key's counter.
#[derive(Clone, Copy, Debug, PartialEq, Eq, Structural)]
pub enum RateReadStep {
    /// No counter exists: create it at one and set its expiry.
    FirstUse,
    /// The counter is below the ceiling: increment it and let the event
    /// pass.
    AllowAfterIncrement,
    /// The counter is at or above the ceiling, or unreadable: refuse the
    /// event without incrementing.
    Reject,
}

/// The step a read counter value calls for.
pub open spec fn read_step(count_text: Option<Seq<char>>, ceiling: u64) -> RateReadStep {
    match count_text {
        None => RateReadStep::FirstUse,
        Some(t) => if !is_digit_seq(t) || dec_value(t) > u64::MAX as nat {
            RateReadStep::Reject
        } else if dec_value(t) >= ceiling as nat {
            RateReadStep::Reject
        } else {
            RateReadStep::AllowAfterIncrement
        },
    }
}

/// Decides what to do with the counter value an external store returned:
/// absent means first use, a readable value below the ceiling passes after
/// an increment, and anything else — at the ceiling, or unreadable — is
/// rejected without incrementing.
pub fn rate_read_decision(count_text: &Option<String>, ceiling: u64) -> (r: RateReadStep)
    ensures
        r == read_step(
            match count_text {
                Some(t) => Some(t@),
                None => None,
            },
            ceiling,
        ),
{
    match count_text {
        None => RateReadStep::FirstUse,
        Some(t) => {
            let n = t.as_str().unicode_len();
            let chars = copy_range(t.as_str(), 0, n);
            proof {
                assert(chars@ =~= t@);
            }
            match crate::textnum::parse_u64_digits(&chars) {
                None => RateReadStep::Reject,
                Some(v) => if v >= ceiling {
                    RateReadStep::Reject
                } else {
                    RateReadStep::AllowAfterIncrement
                },
            }
        },
    }
}

/// The step to take after trying to set a fresh key's expiry.
#[derive(Clone, Copy, Debug, PartialEq, Eq, Structural)]
pub enum RateExpireStep {
    /// The expiry is set: the event passes.
    Allow,
    /// The expiry could not be set: the key is unsafe, so delete it and
    /// refuse the event.
    DeleteKeyAndReject,
}

/// Decides what to do after setting a fresh key's expiry: a key whose
/// expiry is not in place would never reset, so the call fails closed.
pub fn rate_expire_decision(expire_was_set: bool) -> (r: RateExpireStep)
    ensures
        r == if expire_was_set {
            RateExpireStep::Allow
        } else {
            RateExpireStep::DeleteKeyAndReject
        },
{
    if expire_was_set {
        RateExpireStep::Allow
    } else {
        RateExpireStep::DeleteKeyAndReject
    }
}

/// One keyed counter: how many events passed and when the counter lapses.
pub struct RateEntry {
    pub actor: u64,
    pub resource: String,
    pub count: u64,
    pub expires_at: u64,
}

/// A windowed event counter per (actor, resource) key, driven by an
/// explicit clock. A counter lapses once the clock reaches its expiry, as
/// if the store had dropped the key.
pub struct RateLimiter {
    pub entries: Vec<RateEntry>,
}

impl RateLimiter {
    /// Whether an entry for the key exists (live or lapsed).
    pub open spec fn has_key(self, actor: u64, resource: Seq<char>) -> bool {
        exists|i: int|
            0 <= i < self.entries@.len() && self.entries@[i].actor == actor
                && self.entries@[i].resource@ == resource
    }

    /// The index of the key's entry.
    pub open spec fn key_index(self, actor: u64, resource: Seq<char>) -> int {
        choose|i: int|
            0 <= i < self.entries@.len() && self.entries@[i].actor == actor
                && self.entries@[i].resource@ == resource
    }

    /// Whether a live (unlapsed) counter exists for the key.
    pub open spec fn has_live(self, actor: u64, resource: Seq<char>, now: u64) -> bool {
        self.has_key(actor, resource) && now < self.entries@[self.key_index(
            actor,
            resource,
        )].expires_at
    }

    /// At most one entry per key.
    pub open spec fn wf(self) -> bool {
        forall|i: int, j: int|
            0 <= i < j < self.entries@.len() ==> !(self.entries@[i].actor
                == self.entries@[j].actor && self.entries@[i].resource@
                == self.entries@[j].resource@)
    }

    /// The key's live count: its counter if one exists and has not lapsed,
    /// zero otherwise.
    pub open spec fn live_count(self, actor: u64, resource: Seq<char>, now: u64) -> nat {
        if self.has_live(actor, resource, now) {
            self.entries@[self.key_index(actor, resource)].count as nat
        } else {
            0
        }
    }

    /// An empty counter table.
    pub fn new() -> (r: RateLimiter)
        ensures
            r.wf(),
            r.entries@.len() == 0,
    {
        RateLimiter { entries: Vec::new() }
    }

    /// Admits or refuses one event for a key, now. Lets the event pass
    /// exactly when the key's live count is below the ceiling; a passed
    /// event raises the live count by one, starting a fresh window when no
    /// live counter existed; a refused event changes nothing.
    pub fn allow(
        &mut self,
        actor: u64,
        resource: &str,
        ceiling: u64,
        window: u64,
        now: u64,
    ) -> (b: bool)
        requires
            old(self).wf(),
            ceiling >= 1,
            window >= 1,
            now + window <= u64::MAX,
        ensures
            final(self).wf(),
            b == (old(self).live_count(actor, resource@, now) < ceiling as nat),
            b ==> final(self).live_count(actor, resource@, now) == old(self).live_count(
                actor,
                resource@,
                now,
            ) + 1,
            !b ==> *final(self) == *old(self),
            b && !old(self).has_live(actor, resource@, now) ==> final(self).has_live(
                actor,
                resource@,
                now,
            ) && final(self).entries@[final(self).key_index(actor, resource@)].expires_at == now
                + window,
            forall|a2: u64, r2: Seq<char>|
                !(a2 == actor && r2 == resource@) ==> final(self).live_count(a2, r2, now) == old(
                    self,
                ).live_count(a2, r2, now),
    {
        let n = self.entries.len();
        let mut i: usize = 0;
        while i < n
            invariant
                *self == *old(self),
                self.wf(),
                ceiling >= 1,
                window >= 1,
                now + window <= u64::MAX,
                n == self.entries@.len(),
                i <= n,
                forall|j: int|
                    0 <= j < i ==> !(self.entries@[j].actor == actor
                        && self.entries@[j].resource@ == resource@),
            decreases n - i,
        {
            let hit = self.entries[i].actor == actor && {
                let entry_res: &String = &self.entries[i].resource;
                crate::text::str_eq(entry_res.as_str(), resource)
            };
            if hit {
                proof {
                    lemma_key_index_is(*self, actor, resource@, i as int);
                }
                let e = &self.entries[i];
                if now < e.expires_at {
                    // A live counter: below the ceiling it counts one more
                    // event, at the ceiling it refuses.
                    if e.count < ceiling {
                        let updated = RateEntry {
                            actor,
                            resource: clone_string(&self.entries[i].resource),
                            count: e.count + 1,
                            expires_at: e.expires_at,
                        };
                        let _ = self.entries.remove(i);
                        self.entries.insert(i, updated);
                        proof {
                            assert(self.entries@ =~= old(self).entries@.update(
                                i as int,
                                self.entries@[i as int],
                            ));
                            lemma_update_keeps_keys(
                                old(self).entries@,
                                self.entries@,
                                i as int,
                            );
                            assert(self.wf());
                            lemma_key_index_is(*self, actor, resource@, i as int);
                            lemma_other_keys_same(
                                *old(self),
                                *self,
                                i as int,
                                actor,
                                resource@,
                                now,
                            );
                        }
                        return true;
                    } else {
                        return false;
                    }
                } else {
                    // A lapsed counter: the store would have dropped the
                    // key, so a fresh window starts.
                    let updated = RateEntry {
                        actor,
                        resource: clone_string(&self.entries[i].resource),
                        count: 1,
                        expires_at: now + window,
                    };
                    let _ = self.entries.remove(i);
                    self.entries.insert(i, updated);
                    proof {
                        assert(self.entries@ =~= old(self).entries@.update(
                            i as int,
                            self.entries@[i as int],
                        ));
                        lemma_update_keeps_keys(old(self).entries@, self.entries@, i as int);
                        assert(self.wf());
                        lemma_key_index_is(*self, actor, resource@, i as int);
                        lemma_other_keys_same(
                            *old(self),
                            *self,
                            i as int,
                            actor,
                            resource@,
                            now,
                        );
                    }
                    return true;
                }
            }
            i = i + 1;
        }
        // No entry for the key: create it with one counted event.
        let fresh = RateEntry {
            actor,
            resource: str_to_string(resource),
            count: 1,
            expires_at: now + window,
        };
        self.entries.push(fresh);
        proof {
            let k = old(self).entries@.len() as int;
            assert(!old(self).has_key(actor, resource@));
            assert(self.wf());
            lemma_key_index_is(*self, actor, resource@, k);
            lemma_push_keeps_keys(*old(self), *self, actor, resource@, now);
        }
        true
    }
}

/// A copy of a string.
fn clone_string(s: &String) -> (r: String)
    ensures
        r@ == s@,
{
    s.clone()
}

/// A string slice as an owned string.
fn str_to_string(s: &str) -> (r: String)
    ensures
        r@ == s@,
{
    s.to_owned()
}

/// In a well-formed table, an entry that carries a key is that key's one
/// entry.
proof fn lemma_key_index_is(t: RateLimiter, actor: u64, resource: Seq<char>, i: int)
    requires
        t.wf(),
        0 <= i < t.entries@.len(),
        t.entries@[i].actor == actor,
        t.entries@[i].resource@ == resource,
    ensures
        t.has_key(actor, resource),
        t.key_index(actor, resource) == i,
{
    let j = t.key_index(actor, resource);
    if j != i {
        assert(0 <= j < t.entries@.len() && t.entries@[j].actor == actor
            && t.entries@[j].resource@ == resource);
    }
}

/// Updating one entry in place leaves every position's key as it was.
proof fn lemma_update_keeps_keys(before: Seq<RateEntry>, after: Seq<RateEntry>, i: int)
    requires
        0 <= i < before.len(),
        after == before.update(i, after[i]),
        after[i].actor == before[i].actor,
        after[i].resource@ == before[i].resource@,
    ensures
        after.len() == before.len(),
        forall|j: int|
            0 <= j < before.len() ==> #[trigger] after[j].actor == before[j].actor
                && after[j].resource@ == before[j].resource@,
{
}

/// After updating the key's own entry, every other key reads as before.
proof fn lemma_other_keys_same(
    before: RateLimiter,
    after: RateLimiter,
    i: int,
    actor: u64,
    resource: Seq<char>,
    now: u64,
)
    requires
        before.wf(),
        after.wf(),
        0 <= i < before.entries@.len(),
        after.entries@ == before.entries@.update(i, after.entries@[i]),
        before.entries@[i].actor == actor,
        before.entries@[i].resource@ == resource,
        after.entries@[i].actor == actor,
        after.entries@[i].resource@ == resource,
    ensures
        forall|a2: u64, r2: Seq<char>|
            !(a2 == actor && r2 == resource) ==> after.live_count(a2, r2, now)
                == before.live_count(a2, r2, now),
{
    assert forall|a2: u64, r2: Seq<char>| !(a2 == actor && r2 == resource) implies after.live_count(
        a2,
        r2,
        now,
    ) == before.live_count(a2, r2, now) by {
        if before.has_key(a2, r2) {
            let j = before.key_index(a2, r2);
            assert(j != i);
            assert(after.entries@[j].actor == a2 && after.entries@[j].resource@ == r2);
            lemma_key_index_is(after, a2, r2, j);
        } else {
            if after.has_key(a2, r2) {
                let j = after.key_index(a2, r2);
                assert(before.entries@[j].actor == a2 && before.entries@[j].resource@ == r2);
            }
        }
    }
}

/// After appending a new key's entry, every other key reads as before.
proof fn lemma_push_keeps_keys(
    before: RateLimiter,
    after: RateLimiter,
    actor: u64,
    resource: Seq<char>,
    now: u64,
)
    requires
        before.wf(),
        after.wf(),
        after.entries@.len() == before.entries@.len() + 1,
        after.entries@ == before.entries@.push(after.entries@.last()),
        after.entries@.last().actor == actor,
        after.entries@.last().resource@ == resource,
    ensures
        forall|a2: u64, r2: Seq<char>|
            !(a2 == actor && r2 == resource) ==> after.live_count(a2, r2, now)
                == before.live_count(a2, r2, now),
{
    let k = before.entries@.len() as int;
    assert forall|a2: u64, r2: Seq<char>| !(a2 == actor && r2 == resource) implies after.live_count(
        a2,
        r2,
        now,
    ) == before.live_count(a2, r2, now) by {
        if before.has_key(a2, r2) {
            let j = before.key_index(a2, r2);
            assert(after.entries@[j].actor == a2 && after.entries@[j].resource@ == r2);
            lemma_key_index_is(after, a2, r2, j);
        } else {
            if after.has_key(a2, r2) {
                let j = after.key_index(a2, r2);
                assert(j != k);
                assert(before.entries@[j].actor == a2 && before.entries@[j].resource@ == r2);
            }
        }
    }
}

} // verus!

//! The reference-count discipline of the C objects behind connections
//! and domains.
//!
//! The external library counts owners: an object comes out of a
//! successful open or create with one owner, every clone adds one by
//! incrementing the count, and every close or free removes one. The
//! object itself is released exactly when the count reaches zero. This
//! module states that discipline over plain values and proves its laws:
//! the object stays live until the last of its owners closes, and under
//! the rule that only a live owner ever closes, a release can never run
//! against an object that is already gone.

use vstd::prelude::*;

verus! {

/// One owner's action on a reference-counted C object.
#[derive(Debug, Clone, Copy, PartialEq, Eq, Structural)]
pub enum OwnerEvent {
    /// A clone: the count is incremented and a new owner exists.
    Cloned,
    /// A close or free by one owner: the count is decremented.
    Closed,
}

/// The number of owners left after `events`, starting from the single
/// owner a successful open or create returns.
pub open spec fn owners_after(events: Seq<OwnerEvent>) -> int
    decreases events.len(),
{
    if events.len() == 0 {
        1
    } else {
        owners_after(events.drop_last()) + (
        if events.last() is Cloned {
            1int
        } else {
            -1int
        })
    }
}

/// True while the underlying C object is still allocated: some owner
/// remains.
pub open spec fn resource_live(events: Seq<OwnerEvent>) -> bool {
    owners_after(events) > 0
}

/// True when every close in `events` is performed by a live owner — the
/// discipline the ownership rules enforce: each owner closes at most
/// once, and a close consumes the owner, so no close can follow the one
/// that released the object.
pub open spec fn well_formed(events: Seq<OwnerEvent>) -> bool {
    forall|k: int|
        0 <= k < events.len() && (#[trigger] events[k]) is Closed ==> owners_after(
            events.subrange(0, k),
        ) > 0
}

/// The history of `n` clones of a freshly opened object followed by `k`
/// closes.
pub open spec fn clones_then_closes(n: nat, k: nat) -> Seq<OwnerEvent> {
    Seq::new(n, |i: int| OwnerEvent::Cloned) + Seq::new(k, |i: int| OwnerEvent::Closed)
}

/// Appending one event changes the owner count by exactly one, up for a
/// clone and down for a close.
pub proof fn lemma_owners_after_push(s: Seq<OwnerEvent>, e: OwnerEvent)
    ensures
        owners_after(s.push(e)) == owners_after(s) + (
        if e is Cloned {
            1int
        } else {
            -1int
        }),
{
    assert(s.push(e).drop_last() =~= s);
}

/// After `n` clones alone there are `n + 1` owners.
proof fn lemma_owners_after_clones(n: nat)
    ensures
        owners_after(Seq::new(n, |i: int| OwnerEvent::Cloned)) == 1 + n,
    decreases n,
{
    let s = Seq::new(n, |i: int| OwnerEvent::Cloned);
    if n > 0 {
        let s0 = Seq::new((n - 1) as nat, |i: int| OwnerEvent::Cloned);
        lemma_owners_after_clones((n - 1) as nat);
        assert(s =~= s0.push(OwnerEvent::Cloned));
        lemma_owners_after_push(s0, OwnerEvent::Cloned);
    }
}

/// After `n` clones and then `k` closes, `1 + n - k` owners remain.
pub proof fn lemma_refcount_balance(n: nat, k: nat)
    requires
        k <= n + 1,
    ensures
        owners_after(clones_then_closes(n, k)) == 1 + n - k,
    decreases k,
{
    if k == 0 {
        assert(clones_then_closes(n, 0) =~= Seq::new(n, |i: int| OwnerEvent::Cloned));
        lemma_owners_after_clones(n);
    } else {
        let prev = clones_then_closes(n, (k - 1) as nat);
        lemma_refcount_balance(n, (k - 1) as nat);
        assert(clones_then_closes(n, k) =~= prev.push(OwnerEvent::Closed));
        lemma_owners_after_push(prev, OwnerEvent::Closed);
    }
}

/// After `n` clones of a freshly opened object there are `n + 1` owners,
/// and the object stays live until every one of them has closed: after
/// `k` closes it is live exactly when `k <= n`, so the close that
/// releases it is the `n + 1`-th and no earlier one.
pub proof fn lemma_live_until_last_owner_closes(n: nat, k: nat)
    requires
        k <= n + 1,
    ensures
        resource_live(clones_then_closes(n, k)) <==> k <= n,
{
    lemma_refcount_balance(n, k);
}

/// Under the discipline that only a live owner ever closes, the owner
/// count never falls below zero: the object cannot be released twice.
pub proof fn lemma_no_double_release(events: Seq<OwnerEvent>)
    requires
        well_formed(events),
    ensures
        owners_after(events) >= 0,
    decreases events.len(),
{
    if events.len() > 0 {
        let s = events.drop_last();
        assert forall|k: int| 0 <= k < s.len() && (#[trigger] s[k]) is Closed implies owners_after(
            s.subrange(0, k),
        ) > 0 by {
            assert(events[k] is Closed);
            assert(s.subrange(0, k) =~= events.subrange(0, k));
        }
        lemma_no_double_release(s);
        if events.last() is Closed {
            assert(events.subrange(0, events.len() - 1) =~= s);
        }
    }
}

/// A close is within the discipline only while the object is live: a
/// history that ends in a close and is well formed had a live object
/// just before it.
pub proof fn lemma_close_only_while_live(events: Seq<OwnerEvent>)
    requires
        well_formed(events.push(OwnerEvent::Closed)),
    ensures
        resource_live(events),
{
    let p = events.push(OwnerEvent::Closed);
    assert(p[events.len() as int] is Closed);
    assert(p.subrange(0, events.len() as int) =~= events);
}

/// A model of the count the external library keeps for one object:
/// created at one by a successful open or create, incremented by the
/// foreign ref call a clone performs, decremented by a close or free,
/// with the object released exactly when the count reaches zero.
#[derive(Debug)]
pub struct RefCount {
    count: u64,
}

impl RefCount {
    /// The current number of owners, for specifications.
    pub closed spec fn spec_count(&self) -> u64 {
        self.count
    }

    /// The current number of owners.
    pub fn count(&self) -> (r: u64)
        ensures
            r == self.spec_count(),
    {
        self.count
    }

    /// A fresh object, as a successful open or create returns it: one
    /// owner.
    pub fn new() -> (r: RefCount)
        ensures
            r.spec_count() == 1,
    {
        RefCount { count: 1 }
    }

    /// One more owner: what the foreign ref call does when an owner is
    /// cloned. Only a live object can be cloned.
    pub fn retain(&mut self)
        requires
            old(self).spec_count() >= 1,
            old(self).spec_count() < u64::MAX,
        ensures
            final(self).spec_count() == old(self).spec_count() + 1,
    {
        self.count = self.count + 1;
    }

    /// One owner gone: what a close or free does. Only a live owner can
    /// release, which is why releasing demands a positive count; the
    /// result says whether this was the last owner, releasing the
    /// object itself.
    pub fn release(&mut self) -> (last: bool)
        requires
            old(self).spec_count() >= 1,
        ensures
            final(self).spec_count() == old(self).spec_count() - 1,
            last <==> final(self).spec_count() == 0,
    {
        self.count = self.count - 1;
        self.count == 0
    }
}

} // verus!

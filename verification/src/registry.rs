//! Connection registry: the ordered collection of active subscribers.
//!
//! The registry is the single piece of shared mutable state in the server.
//! The acceptor appends under exclusive access; the broadcaster removes,
//! in one step, every member whose write failed. The capacity bound is
//! strict: admission is refused once the registry holds `capacity` members,
//! so its size never exceeds the configured maximum. (An earlier revision's
//! admission check let the collection briefly exceed the bound by one; this
//! registry deliberately keeps the strict bound.)

use vstd::prelude::*;

verus! {

/// The members of `s` whose position in `mask` is `true`, in their
/// original order.
pub open spec fn keep_by_mask<T>(s: Seq<T>, mask: Seq<bool>) -> Seq<T>
    decreases s.len(),
{
    if s.len() == 0 {
        Seq::empty()
    } else {
        let rest = keep_by_mask(s.drop_last(), mask.drop_last());
        if mask[s.len() - 1] {
            rest.push(s.last())
        } else {
            rest
        }
    }
}

/// An ordered collection of subscriber handles with a fixed capacity.
/// `T` is the connection handle; the registry itself never reads it.
pub struct Registry<T> {
    members: Vec<T>,
    capacity: usize,
}

impl<T> Registry<T> {
    /// The current members, in admission order.
    pub closed spec fn view(&self) -> Seq<T> {
        self.members@
    }

    pub closed spec fn spec_capacity(&self) -> usize {
        self.capacity
    }

    /// The capacity bound: the registry never holds more members than its
    /// configured capacity.
    pub open spec fn wf(&self) -> bool {
        self.view().len() <= self.spec_capacity()
    }

    pub fn new(capacity: usize) -> (r: Registry<T>)
        ensures
            r.view() == Seq::<T>::empty(),
            r.spec_capacity() == capacity,
            r.wf(),
    {
        Registry { members: Vec::new(), capacity }
    }

    pub fn len(&self) -> (r: usize)
        ensures
            r == self.view().len(),
    {
        self.members.len()
    }

    pub fn capacity(&self) -> (r: usize)
        ensures
            r == self.spec_capacity(),
    {
        self.capacity
    }

    /// The members, for one write pass over all of them.
    pub fn members(&self) -> (r: &Vec<T>)
        ensures
            r@ == self.view(),
    {
        &self.members
    }

    /// Admit one subscriber. Succeeds exactly when the registry is below
    /// capacity; at capacity the handle is dropped and nothing changes.
    pub fn add(&mut self, member: T) -> (r: bool)
        requires
            old(self).wf(),
        ensures
            final(self).wf(),
            final(self).spec_capacity() == old(self).spec_capacity(),
            r == (old(self).view().len() < old(self).spec_capacity()),
            r ==> final(self).view() == old(self).view().push(member),
            !r ==> final(self).view() == old(self).view(),
    {
        if self.members.len() < self.capacity {
            self.members.push(member);
            true
        } else {
            false
        }
    }

    /// One broadcast pass has attempted a write to every member;
    /// `write_ok[i]` says whether member `i` accepted it. Remove, in a
    /// single step, exactly the members whose write failed, keeping the
    /// others in order.
    pub fn retain_written(&mut self, write_ok: &Vec<bool>)
        requires
            old(self).wf(),
            write_ok@.len() == old(self).view().len(),
        ensures
            final(self).wf(),
            final(self).spec_capacity() == old(self).spec_capacity(),
            final(self).view() == keep_by_mask(old(self).view(), write_ok@),
    {
        let ghost orig = self.members@;
        let ghost mask = write_ok@;
        let mut kept: Vec<T> = Vec::new();
        let n = self.members.len();
        proof {
            lemma_keep_by_mask_len(orig, mask);
        }
        for i in 0..n
            invariant
                n == orig.len(),
                mask == write_ok@,
                mask.len() == orig.len(),
                self.members@ == orig.skip(i as int),
                self.capacity == old(self).spec_capacity(),
                kept@ == keep_by_mask(orig.take(i as int), mask.take(i as int)),
                kept@.len() <= i,
        {
            let m = self.members.remove(0);
            proof {
                let s1 = orig.take(i + 1);
                let m1 = mask.take(i + 1);
                assert(s1.drop_last() =~= orig.take(i as int));
                assert(m1.drop_last() =~= mask.take(i as int));
                assert(s1.last() == orig[i as int]);
                assert(m1[s1.len() - 1] == mask[i as int]);
                assert(self.members@ =~= orig.skip(i + 1));
                assert(m == orig[i as int]);
            }
            if write_ok[i] {
                kept.push(m);
            }
        }
        proof {
            assert(orig.take(n as int) =~= orig);
            assert(mask.take(n as int) =~= mask);
        }
        self.members = kept;
    }
}

/// A pruning pass never adds members: the survivors number at most the
/// members, so every broadcast preserves the capacity bound.
pub proof fn lemma_keep_by_mask_len<T>(s: Seq<T>, mask: Seq<bool>)
    ensures
        keep_by_mask(s, mask).len() <= s.len(),
    decreases s.len(),
{
    if s.len() > 0 {
        lemma_keep_by_mask_len(s.drop_last(), mask.drop_last());
    }
}

/// Removal is only ever for cause: a pass in which every write succeeded
/// leaves the membership exactly as it was.
pub proof fn lemma_keep_by_mask_all_true<T>(s: Seq<T>, mask: Seq<bool>)
    requires
        mask.len() == s.len(),
        forall|i: int| 0 <= i < mask.len() ==> mask[i],
    ensures
        keep_by_mask(s, mask) == s,
    decreases s.len(),
{
    if s.len() > 0 {
        lemma_keep_by_mask_all_true(s.drop_last(), mask.drop_last());
        assert(keep_by_mask(s, mask) =~= s);
    } else {
        assert(keep_by_mask(s, mask) =~= s);
    }
}

} // verus!

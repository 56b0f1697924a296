//! The reference-counting lifetime discipline for one shared path object.
//!
//! The foreign runtime owns the count: a fresh object starts at one
//! reference, cloning a handle retains (increments), dropping a handle
//! releases (decrements), and the object is freed exactly when the count
//! reaches zero. This module states that discipline over an explicit
//! history of retain and release calls and proves its laws: the net count
//! depends only on how many calls of each kind were made, not on their
//! order, and a history of `n` retains and `n + 1` releases frees the
//! object exactly once, at its last release and not before.

use vstd::multiset::Multiset;
use vstd::prelude::*;

verus! {

/// One call against the foreign object's reference count.
#[derive(Clone, Copy, PartialEq, Eq, Structural, Debug)]
pub enum RcOp {
    /// An increment, made when a handle is cloned.
    Retain,
    /// A decrement, made when a handle is dropped.
    Release,
}

/// How many retains a history holds.
pub open spec fn count_retains(ops: Seq<RcOp>) -> int
    decreases ops.len(),
{
    if ops.len() == 0 {
        0
    } else {
        count_retains(ops.drop_last()) + if ops.last() is Retain {
            1int
        } else {
            0int
        }
    }
}

/// How many releases a history holds.
pub open spec fn count_releases(ops: Seq<RcOp>) -> int
    decreases ops.len(),
{
    if ops.len() == 0 {
        0
    } else {
        count_releases(ops.drop_last()) + if ops.last() is Release {
            1int
        } else {
            0int
        }
    }
}

/// The reference count after a history of calls, starting from the single
/// reference a fresh object is allocated with.
pub open spec fn count_after(ops: Seq<RcOp>) -> int {
    1 + count_retains(ops) - count_releases(ops)
}

/// A history is valid when every call in it was made against a live
/// object: the count before each call is positive.
pub open spec fn valid_history(ops: Seq<RcOp>) -> bool {
    forall|i: int| 0 <= i < ops.len() ==> count_after(#[trigger] ops.take(i)) > 0
}

proof fn lemma_counts_from_multiset(ops: Seq<RcOp>)
    ensures
        count_retains(ops) == ops.to_multiset().count(RcOp::Retain),
        count_releases(ops) == ops.to_multiset().count(RcOp::Release),
    decreases ops.len(),
{
    broadcast use vstd::seq_lib::group_to_multiset_ensures;
    broadcast use vstd::multiset::group_multiset_axioms;

    if ops.len() == 0 {
        assert(ops =~= Seq::<RcOp>::empty());
        assert(ops.to_multiset() =~= Multiset::<RcOp>::empty());
    } else {
        let butlast = ops.drop_last();
        lemma_counts_from_multiset(butlast);
        assert(ops =~= butlast.push(ops.last()));
        assert(ops.to_multiset() =~= butlast.to_multiset().insert(ops.last()));
    }
}

/// Dropping in any order yields the same net effect: the count after a
/// history depends only on which calls were made, not on their order.
pub proof fn lemma_count_order_irrelevant(ops1: Seq<RcOp>, ops2: Seq<RcOp>)
    requires
        ops1.to_multiset() == ops2.to_multiset(),
    ensures
        count_after(ops1) == count_after(ops2),
{
    lemma_counts_from_multiset(ops1);
    lemma_counts_from_multiset(ops2);
}

/// In a valid history whose releases outnumber its retains by one — one
/// drop for the allocation's own reference and one for every clone — the
/// object is freed exactly once: the count is zero after the whole
/// history and positive before every call in it, so only the last release
/// can have freed it.
pub proof fn lemma_released_exactly_once(ops: Seq<RcOp>)
    requires
        valid_history(ops),
        count_releases(ops) == count_retains(ops) + 1,
    ensures
        count_after(ops) == 0,
        forall|i: int| 0 <= i < ops.len() ==> count_after(#[trigger] ops.take(i)) > 0,
{
}

/// The history made by cloning a fresh handle `n` times and then dropping
/// all `n + 1` handles.
pub open spec fn clones_then_drops(n: nat) -> Seq<RcOp> {
    Seq::new(n, |i: int| RcOp::Retain) + Seq::new(n + 1, |i: int| RcOp::Release)
}

proof fn lemma_count_constant_seq(n: nat, op: RcOp)
    ensures
        count_retains(Seq::new(n, |i: int| op)) == if op is Retain {
            n as int
        } else {
            0
        },
        count_releases(Seq::new(n, |i: int| op)) == if op is Release {
            n as int
        } else {
            0
        },
    decreases n,
{
    let s = Seq::new(n, |i: int| op);
    if n == 0 {
        assert(s.len() == 0);
    } else {
        lemma_count_constant_seq((n - 1) as nat, op);
        assert(s.drop_last() =~= Seq::new((n - 1) as nat, |i: int| op));
        assert(s.last() == op);
    }
}

proof fn lemma_count_concat(a: Seq<RcOp>, b: Seq<RcOp>)
    ensures
        count_retains(a + b) == count_retains(a) + count_retains(b),
        count_releases(a + b) == count_releases(a) + count_releases(b),
    decreases b.len(),
{
    if b.len() == 0 {
        assert(a + b =~= a);
    } else {
        lemma_count_concat(a, b.drop_last());
        assert((a + b).drop_last() =~= a + b.drop_last());
        assert((a + b).last() == b.last());
    }
}

/// After `n` clones of a fresh handle followed by `n + 1` drops, the
/// count is zero, and it was positive before each of the drops: the
/// foreign object is released exactly once, by the last drop.
pub proof fn lemma_clones_then_drops_free_once(n: nat)
    ensures
        valid_history(clones_then_drops(n)),
        count_after(clones_then_drops(n)) == 0,
        count_releases(clones_then_drops(n)) == count_retains(clones_then_drops(n)) + 1,
{
    let ops = clones_then_drops(n);
    let retains = Seq::new(n, |i: int| RcOp::Retain);
    let releases = Seq::new(n + 1, |i: int| RcOp::Release);
    lemma_count_constant_seq(n, RcOp::Retain);
    lemma_count_constant_seq(n + 1, RcOp::Release);
    lemma_count_concat(retains, releases);
    assert forall|i: int| 0 <= i < ops.len() implies count_after(#[trigger] ops.take(i)) > 0 by {
        if i <= n {
            assert(ops.take(i) =~= Seq::new(i as nat, |j: int| RcOp::Retain));
            lemma_count_constant_seq(i as nat, RcOp::Retain);
        } else {
            let head = Seq::new(n, |j: int| RcOp::Retain);
            let tail = Seq::new((i - n) as nat, |j: int| RcOp::Release);
            assert(ops.take(i) =~= head + tail);
            lemma_count_constant_seq((i - n) as nat, RcOp::Release);
            lemma_count_concat(head, tail);
        }
    }
}

/// The reference count the foreign runtime keeps for one path object,
/// together with the history of calls made against it. A fresh object
/// starts with one reference; `retain` is the increment a handle clone
/// makes, `release` the decrement a handle drop makes, and the object is
/// freed exactly when a release brings the count to zero.
pub struct RefCount {
    count: u64,
    log: Ghost<Seq<RcOp>>,
}

impl RefCount {
    #[verifier::type_invariant]
    spec fn inv(self) -> bool {
        &&& self.count as int == count_after(self.log@)
        &&& valid_history(self.log@)
    }

    /// The calls made against this count so far.
    pub closed spec fn history(self) -> Seq<RcOp> {
        self.log@
    }

    /// The current reference count.
    pub closed spec fn spec_count(self) -> int {
        self.count as int
    }

    /// The current count. It always agrees with the history, and the
    /// history is valid: every call in it was made against a live object.
    pub fn current_count(&self) -> (n: u64)
        ensures
            n as int == self.spec_count(),
            self.spec_count() == count_after(self.history()),
            valid_history(self.history()),
    {
        proof {
            use_type_invariant(self);
        }
        self.count
    }

    /// Allocation: the fresh object carries a single reference and an
    /// empty call history.
    pub fn new() -> (r: RefCount)
        ensures
            r.history() == Seq::<RcOp>::empty(),
            r.spec_count() == 1,
    {
        RefCount { count: 1, log: Ghost(Seq::empty()) }
    }

    /// The increment made when a handle is cloned.
    pub fn retain(&mut self)
        requires
            old(self).spec_count() > 0,
            old(self).spec_count() < u64::MAX,
        ensures
            final(self).history() == old(self).history().push(RcOp::Retain),
            final(self).spec_count() == old(self).spec_count() + 1,
    {
        proof {
            use_type_invariant(&*self);
            lemma_push_keeps_valid(self.log@, RcOp::Retain);
        }
        let new_count = self.count + 1;
        *self = RefCount { count: new_count, log: Ghost(self.log@.push(RcOp::Retain)) };
    }

    /// The decrement made when a handle is dropped. Returns whether this
    /// call brought the count to zero, which is when the foreign runtime
    /// frees the object.
    pub fn release(&mut self) -> (freed: bool)
        requires
            old(self).spec_count() > 0,
        ensures
            final(self).history() == old(self).history().push(RcOp::Release),
            final(self).spec_count() == old(self).spec_count() - 1,
            freed <==> final(self).spec_count() == 0,
    {
        proof {
            use_type_invariant(&*self);
            lemma_push_keeps_valid(self.log@, RcOp::Release);
        }
        let new_count = self.count - 1;
        *self = RefCount { count: new_count, log: Ghost(self.log@.push(RcOp::Release)) };
        self.count == 0
    }
}

proof fn lemma_push_keeps_valid(h: Seq<RcOp>, op: RcOp)
    requires
        valid_history(h),
        count_after(h) > 0,
    ensures
        valid_history(h.push(op)),
        count_after(h.push(op)) == count_after(h) + if op is Retain {
            1int
        } else {
            -1int
        },
{
    let hp = h.push(op);
    assert(hp.drop_last() =~= h);
    assert(hp.last() == op);
    assert forall|i: int| 0 <= i < hp.len() implies count_after(#[trigger] hp.take(i)) > 0 by {
        if i < h.len() {
            assert(hp.take(i) =~= h.take(i));
        } else {
            assert(hp.take(i) =~= h);
        }
    }
}

} // verus!

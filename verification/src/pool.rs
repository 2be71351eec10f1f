//! A node's pending pool, as far as the admission rule shapes it: a
//! transaction enters only through the validator's verdict, transactions
//! providing the same tag occupy one slot, and an accepted-but-not-included
//! transaction expires once its longevity has elapsed.

use vstd::prelude::*;

use crate::validate::Call;
use crate::validate::InvalidTransaction;
use crate::validate::ProvidesTag;
use crate::validate::TransactionSource;
use crate::validate::ValidTransaction;
use crate::validate::spec_validate_unsigned;
use crate::validate::validate_unsigned;

verus! {

/// One accepted transaction waiting for inclusion, with its verdict and the
/// block at which it was accepted.
#[derive(Clone, Copy, PartialEq, Eq, Debug)]
pub struct PendingTransaction {
    pub call: Call,
    pub provides: ProvidesTag,
    pub priority: u64,
    pub propagate: bool,
    pub longevity: u64,
    pub accepted_at: u64,
}

impl PendingTransaction {
    /// Eligible for inclusion at `block`: fewer than `longevity` blocks have
    /// elapsed since acceptance.
    pub open spec fn spec_valid_at(&self, block: u64) -> bool {
        block < self.accepted_at + self.longevity
    }

    pub fn can_include(&self, block: u64) -> (r: bool)
        ensures
            r == self.spec_valid_at(block),
    {
        if block < self.accepted_at {
            true
        } else {
            block - self.accepted_at < self.longevity
        }
    }
}

/// How many pending transactions provide `tag`.
pub open spec fn tag_count(s: Seq<PendingTransaction>, tag: ProvidesTag) -> int
    decreases s.len(),
{
    if s.len() == 0 {
        0
    } else {
        tag_count(s.drop_last(), tag) + if s.last().provides == tag {
            1int
        } else {
            0int
        }
    }
}

/// `s` without every transaction that provides `tag`, order kept.
pub open spec fn remove_tag(s: Seq<PendingTransaction>, tag: ProvidesTag) -> Seq<
    PendingTransaction,
>
    decreases s.len(),
{
    if s.len() == 0 {
        Seq::empty()
    } else if s.last().provides == tag {
        remove_tag(s.drop_last(), tag)
    } else {
        remove_tag(s.drop_last(), tag).push(s.last())
    }
}

proof fn lemma_tag_count_push(s: Seq<PendingTransaction>, x: PendingTransaction, tag: ProvidesTag)
    ensures
        tag_count(s.push(x), tag) == tag_count(s, tag) + if x.provides == tag {
            1int
        } else {
            0int
        },
{
    assert(s.push(x).drop_last() =~= s);
}

proof fn lemma_remove_tag_count(s: Seq<PendingTransaction>, tag: ProvidesTag, other: ProvidesTag)
    ensures
        tag_count(remove_tag(s, tag), other) == if other == tag {
            0int
        } else {
            tag_count(s, other)
        },
    decreases s.len(),
{
    if s.len() > 0 {
        lemma_remove_tag_count(s.drop_last(), tag, other);
        if s.last().provides != tag {
            lemma_tag_count_push(remove_tag(s.drop_last(), tag), s.last(), other);
        }
    }
}

/// The tag-slot rule as a law: however the pool stood, once a transaction
/// providing a tag is admitted (evicting that tag's earlier holders), exactly
/// one pending transaction provides that tag.
pub proof fn lemma_tag_slot(s: Seq<PendingTransaction>, e: PendingTransaction)
    ensures
        tag_count(remove_tag(s, e.provides).push(e), e.provides) == 1,
{
    lemma_remove_tag_count(s, e.provides, e.provides);
    lemma_tag_count_push(remove_tag(s, e.provides), e, e.provides);
}

/// Longevity expiry as a law: once `longevity` blocks have elapsed since
/// acceptance, the transaction is no longer valid for inclusion.
pub proof fn lemma_longevity_expiry(e: PendingTransaction, block: u64)
    requires
        block >= e.accepted_at + e.longevity,
    ensures
        !e.spec_valid_at(block),
{
}

/// The pending pool of one node. Transactions enter only through `submit`,
/// which applies the admission validator.
pub struct TransactionPool {
    pending: Vec<PendingTransaction>,
}

impl View for TransactionPool {
    type V = Seq<PendingTransaction>;

    closed spec fn view(&self) -> Seq<PendingTransaction> {
        self.pending@
    }
}

impl TransactionPool {
    /// At most one pending transaction per provides tag.
    pub open spec fn wf(&self) -> bool {
        forall|tag: ProvidesTag| tag_count(self@, tag) <= 1
    }

    pub fn new() -> (p: TransactionPool)
        ensures
            p@ == Seq::<PendingTransaction>::empty(),
            p.wf(),
    {
        let p = TransactionPool { pending: Vec::new() };
        proof {
            assert forall|tag: ProvidesTag| tag_count(p@, tag) <= 1 by {
                assert(tag_count(p@, tag) == 0);
            }
        }
        p
    }

    /// The pending transactions, in order of admission.
    pub fn pending(&self) -> (r: &Vec<PendingTransaction>)
        ensures
            r@ == self@,
    {
        &self.pending
    }

    /// Offer a candidate transaction to the pool. It is admitted exactly when
    /// the validator accepts it; admission evicts any pending transaction
    /// providing the same tag before the new one joins at the back.
    pub fn submit(&mut self, source: TransactionSource, call: Call, at_block: u64) -> (r: Result<
        ValidTransaction,
        InvalidTransaction,
    >)
        requires
            old(self).wf(),
        ensures
            final(self).wf(),
            spec_validate_unsigned(call) matches Err(e) ==> r == Err::<
                ValidTransaction,
                InvalidTransaction,
            >(e) && final(self)@ == old(self)@,
            spec_validate_unsigned(call) matches Ok(v) ==> r == Ok::<
                ValidTransaction,
                InvalidTransaction,
            >(v) && final(self)@ == remove_tag(old(self)@, v.provides).push(
                (PendingTransaction {
                    call,
                    provides: v.provides,
                    priority: v.priority,
                    propagate: v.propagate,
                    longevity: v.longevity,
                    accepted_at: at_block,
                }),
            ),
    {
        let v = match validate_unsigned(source, &call) {
            Ok(v) => v,
            Err(e) => {
                return Err(e);
            },
        };
        let ghost s0 = self.pending@;
        let mut kept: Vec<PendingTransaction> = Vec::new();
        let mut i: usize = 0;
        while i < self.pending.len()
            invariant
                i <= self.pending.len(),
                self.pending@ == s0,
                kept@ == remove_tag(s0.take(i as int), v.provides),
            decreases self.pending.len() - i,
        {
            let entry = self.pending[i];
            proof {
                assert(s0.take(i as int + 1) =~= s0.take(i as int).push(entry));
                assert(s0.take(i as int + 1).drop_last() =~= s0.take(i as int));
            }
            if entry.provides != v.provides {
                kept.push(entry);
            }
            i = i + 1;
        }
        proof {
            assert(s0.take(s0.len() as int) =~= s0);
        }
        let entry = PendingTransaction {
            call,
            provides: v.provides,
            priority: v.priority,
            propagate: v.propagate,
            longevity: v.longevity,
            accepted_at: at_block,
        };
        kept.push(entry);
        self.pending = kept;
        proof {
            assert forall|tag: ProvidesTag| tag_count(self@, tag) <= 1 by {
                lemma_remove_tag_count(s0, v.provides, tag);
                lemma_tag_count_push(remove_tag(s0, v.provides), entry, tag);
            }
        }
        Ok(v)
    }
}

} // verus!

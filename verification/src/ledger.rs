use vstd::prelude::*;

use crate::account::{AccountId, Balance};

verus! {

/// A finite map from account to balance, kept as an association list with
/// pairwise distinct keys. It stands in for the keyed storage maps that the
/// hosting runtime provides to a deployed contract, so the escrow and token
/// machines can be verified over it.
pub struct BalanceLedger {
    entries: Vec<(AccountId, Balance)>,
}

impl BalanceLedger {
    pub closed spec fn spec_entries(self) -> Seq<(AccountId, Balance)> {
        self.entries@
    }

    /// Keys are pairwise distinct, so each account has at most one entry.
    pub open spec fn wf(self) -> bool {
        forall|i: int, j: int|
            0 <= i < j < self.spec_entries().len() ==> (#[trigger] self.spec_entries()[i]).0 != (
            #[trigger] self.spec_entries()[j]).0
    }

    /// Whether `a` has an entry.
    pub open spec fn spec_has(self, a: AccountId) -> bool {
        exists|i: int|
            0 <= i < self.spec_entries().len() && (#[trigger] self.spec_entries()[i]).0 == a
    }

    /// The balance recorded for `a`; meaningful only when `spec_has(a)`.
    pub closed spec fn spec_get(self, a: AccountId) -> Balance {
        let i = choose|i: int|
            0 <= i < self.spec_entries().len() && (#[trigger] self.spec_entries()[i]).0 == a;
        self.spec_entries()[i].1
    }

    /// With distinct keys, any entry holding `a` determines `spec_get(a)`.
    proof fn lemma_get_at(self, i: int)
        requires
            self.wf(),
            0 <= i < self.spec_entries().len(),
        ensures
            self.spec_has(self.spec_entries()[i].0),
            self.spec_get(self.spec_entries()[i].0) == self.spec_entries()[i].1,
    {
        let a = self.spec_entries()[i].0;
        assert(self.spec_has(a));
        let j = choose|j: int|
            0 <= j < self.spec_entries().len() && (#[trigger] self.spec_entries()[j]).0 == a;
        assert(j == i);
    }

    /// If `pre` and `post` hold the same entries apart from the one for `a`,
    /// then every other account keeps its presence and balance.
    proof fn lemma_frame(pre: Self, post: Self, a: AccountId)
        requires
            pre.wf(),
            post.wf(),
            forall|j: int|
                0 <= j < pre.spec_entries().len() && (#[trigger] pre.spec_entries()[j]).0 != a
                    ==> exists|k: int|
                    0 <= k < post.spec_entries().len() && #[trigger] post.spec_entries()[k]
                        == pre.spec_entries()[j],
            forall|k: int|
                0 <= k < post.spec_entries().len() && (#[trigger] post.spec_entries()[k]).0 != a
                    ==> exists|j: int|
                    0 <= j < pre.spec_entries().len() && #[trigger] pre.spec_entries()[j]
                        == post.spec_entries()[k],
        ensures
            forall|b: AccountId| b != a ==> (#[trigger] post.spec_has(b)) == pre.spec_has(b),
            forall|b: AccountId|
                b != a && pre.spec_has(b) ==> (#[trigger] post.spec_get(b)) == pre.spec_get(b),
    {
        assert forall|b: AccountId| b != a implies (#[trigger] post.spec_has(b)) == pre.spec_has(
            b,
        ) by {
            if pre.spec_has(b) {
                let j = choose|j: int|
                    0 <= j < pre.spec_entries().len() && (#[trigger] pre.spec_entries()[j]).0 == b;
                let k = choose|k: int|
                    0 <= k < post.spec_entries().len() && #[trigger] post.spec_entries()[k]
                        == pre.spec_entries()[j];
                assert(post.spec_entries()[k].0 == b);
            }
            if post.spec_has(b) {
                let k = choose|k: int|
                    0 <= k < post.spec_entries().len() && (#[trigger] post.spec_entries()[k]).0
                        == b;
                let j = choose|j: int|
                    0 <= j < pre.spec_entries().len() && #[trigger] pre.spec_entries()[j]
                        == post.spec_entries()[k];
                assert(pre.spec_entries()[j].0 == b);
            }
        }
        assert forall|b: AccountId| b != a && pre.spec_has(b) implies (
        #[trigger] post.spec_get(b)) == pre.spec_get(b) by {
            let j = choose|j: int|
                0 <= j < pre.spec_entries().len() && (#[trigger] pre.spec_entries()[j]).0 == b;
            let k = choose|k: int|
                0 <= k < post.spec_entries().len() && #[trigger] post.spec_entries()[k]
                    == pre.spec_entries()[j];
            pre.lemma_get_at(j);
            post.lemma_get_at(k);
        }
    }

    pub fn new() -> (r: BalanceLedger)
        ensures
            r.wf(),
            forall|a: AccountId| !r.spec_has(a),
    {
        BalanceLedger { entries: Vec::new() }
    }

    /// Index of the entry for `a`, if there is one.
    fn find(&self, a: AccountId) -> (r: Option<usize>)
        ensures
            match r {
                Some(i) => i < self.spec_entries().len() && self.spec_entries()[i as int].0 == a,
                None => !self.spec_has(a),
            },
    {
        let mut i: usize = 0;
        while i < self.entries.len()
            invariant
                i <= self.spec_entries().len(),
                forall|k: int| 0 <= k < i ==> (#[trigger] self.spec_entries()[k]).0 != a,
            decreases self.spec_entries().len() - i,
        {
            if self.entries[i].0 == a {
                return Some(i);
            }
            i += 1;
        }
        None
    }

    /// Looks up the balance recorded for `a`.
    pub fn get(&self, a: AccountId) -> (r: Option<Balance>)
        requires
            self.wf(),
        ensures
            r == (if self.spec_has(a) {
                Some(self.spec_get(a))
            } else {
                None::<Balance>
            }),
    {
        match self.find(a) {
            Some(i) => {
                proof {
                    self.lemma_get_at(i as int);
                }
                Some(self.entries[i].1)
            },
            None => None,
        }
    }

    /// Adds `amount` to the entry for `a`, creating the entry if absent.
    pub fn credit(&mut self, a: AccountId, amount: Balance)
        requires
            old(self).wf(),
            old(self).spec_has(a) ==> old(self).spec_get(a) + amount <= Balance::MAX,
        ensures
            final(self).wf(),
            final(self).spec_has(a),
            final(self).spec_get(a) == if old(self).spec_has(a) {
                (old(self).spec_get(a) + amount) as Balance
            } else {
                amount
            },
            forall|b: AccountId|
                b != a ==> (#[trigger] final(self).spec_has(b)) == old(self).spec_has(b),
            forall|b: AccountId|
                b != a && old(self).spec_has(b) ==> (#[trigger] final(self).spec_get(b)) == old(
                    self,
                ).spec_get(b),
    {
        match self.find(a) {
            Some(i) => {
                proof {
                    self.lemma_get_at(i as int);
                }
                let ghost pre = *self;
                let entry = &mut self.entries[i];
                entry.1 = entry.1 + amount;
                proof {
                    let pres = pre.spec_entries();
                    let posts = self.spec_entries();
                    assert(posts == pres.update(i as int, posts[i as int]));
                    assert(posts[i as int].0 == a);
                    assert(posts[i as int].1 == pre.spec_get(a) + amount);
                    self.lemma_get_at(i as int);
                    assert forall|j: int| 0 <= j < pres.len() && (#[trigger] pres[j]).0 != a
                        implies exists|k: int|
                        0 <= k < posts.len() && #[trigger] posts[k] == pres[j] by {
                        assert(posts[j] == pres[j]);
                    }
                    assert forall|k: int| 0 <= k < posts.len() && (#[trigger] posts[k]).0 != a
                        implies exists|j: int|
                        0 <= j < pres.len() && #[trigger] pres[j] == posts[k] by {
                        assert(pres[k] == posts[k]);
                    }
                    Self::lemma_frame(pre, *self, a);
                }
            },
            None => {
                let ghost pre = *self;
                self.entries.push((a, amount));
                proof {
                    let pres = pre.spec_entries();
                    let posts = self.spec_entries();
                    let n = pres.len() as int;
                    assert(posts == pres.push((a, amount)));
                    assert(posts[n] == (a, amount));
                    assert forall|i: int, j: int| 0 <= i < j < posts.len() implies (
                    #[trigger] posts[i]).0 != (#[trigger] posts[j]).0 by {
                        if j < n {
                            assert(posts[i] == pres[i] && posts[j] == pres[j]);
                        } else {
                            assert(posts[j].0 == a);
                            assert(posts[i] == pres[i]);
                            assert(!pre.spec_has(a));
                        }
                    }
                    self.lemma_get_at(n);
                    assert forall|j: int| 0 <= j < pres.len() && (#[trigger] pres[j]).0 != a
                        implies exists|k: int|
                        0 <= k < posts.len() && #[trigger] posts[k] == pres[j] by {
                        assert(posts[j] == pres[j]);
                    }
                    assert forall|k: int| 0 <= k < posts.len() && (#[trigger] posts[k]).0 != a
                        implies exists|j: int|
                        0 <= j < pres.len() && #[trigger] pres[j] == posts[k] by {
                        assert(k < n);
                        assert(pres[k] == posts[k]);
                    }
                    Self::lemma_frame(pre, *self, a);
                }
            },
        }
    }

    /// Removes the entry for `a` and returns the balance it held.
    pub fn take(&mut self, a: AccountId) -> (r: Option<Balance>)
        requires
            old(self).wf(),
        ensures
            final(self).wf(),
            r == (if old(self).spec_has(a) {
                Some(old(self).spec_get(a))
            } else {
                None::<Balance>
            }),
            !old(self).spec_has(a) ==> *final(self) == *old(self),
            !final(self).spec_has(a),
            forall|b: AccountId|
                b != a ==> (#[trigger] final(self).spec_has(b)) == old(self).spec_has(b),
            forall|b: AccountId|
                b != a && old(self).spec_has(b) ==> (#[trigger] final(self).spec_get(b)) == old(
                    self,
                ).spec_get(b),
    {
        match self.find(a) {
            Some(i) => {
                proof {
                    self.lemma_get_at(i as int);
                }
                let ghost pre = *self;
                let removed = self.entries.remove(i);
                proof {
                    let pres = pre.spec_entries();
                    let posts = self.spec_entries();
                    assert(posts == pres.remove(i as int));
                    pres.remove_ensures(i as int);
                    assert forall|k1: int, k2: int| 0 <= k1 < k2 < posts.len() implies (
                    #[trigger] posts[k1]).0 != (#[trigger] posts[k2]).0 by {
                        let j1 = if k1 < i as int {
                            k1
                        } else {
                            k1 + 1
                        };
                        let j2 = if k2 < i as int {
                            k2
                        } else {
                            k2 + 1
                        };
                        assert(posts[k1] == pres[j1] && posts[k2] == pres[j2]);
                    }
                    assert forall|j: int| 0 <= j < pres.len() && (#[trigger] pres[j]).0 != a
                        implies exists|k: int|
                        0 <= k < posts.len() && #[trigger] posts[k] == pres[j] by {
                        let k = if j < i as int {
                            j
                        } else {
                            j - 1
                        };
                        assert(posts[k] == pres[j]);
                    }
                    assert forall|k: int| 0 <= k < posts.len() && (#[trigger] posts[k]).0 != a
                        implies exists|j: int|
                        0 <= j < pres.len() && #[trigger] pres[j] == posts[k] by {
                        let j = if k < i as int {
                            k
                        } else {
                            k + 1
                        };
                        assert(pres[j] == posts[k]);
                    }
                    assert forall|k: int| 0 <= k < posts.len() implies (#[trigger] posts[k]).0
                        != a by {
                        let j = if k < i as int {
                            k
                        } else {
                            k + 1
                        };
                        assert(posts[k] == pres[j]);
                        assert(pres[i as int].0 == a);
                    }
                    Self::lemma_frame(pre, *self, a);
                }
                Some(removed.1)
            },
            None => None,
        }
    }
}

} // verus!

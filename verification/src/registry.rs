//! The endpoint registry: a mapping from identity tokens to counterpart
//! signal endpoints.
//!
//! One parent holds the counterpart halves of many children's channels here,
//! keyed by each child endpoint's identity token.  Tokens come from a
//! monotonically increasing counter guarded together with the entries, so no
//! two simultaneously-live entries ever collide on a key.  An entry is
//! registered when the endpoint is constructed and removed exactly once, when
//! the endpoint is released; the backing storage is compacted on removal so
//! churn of many short-lived endpoints does not leak capacity.
//!
//! The registry itself is a single-owner value; sharing it between endpoints
//! and guarding it by mutual exclusion is the embedding layer's business.

use vstd::prelude::*;

verus! {

/// A registry of live counterpart endpoints, keyed by identity token.
pub struct SignalRegistry<V> {
    entries: Vec<(u64, V)>,
    next_token: u64,
}

impl<V> SignalRegistry<V> {
    /// Every live entry's token was issued by the counter, and no two live
    /// entries collide on a token.
    #[verifier::type_invariant]
    pub closed spec fn wf(&self) -> bool {
        &&& forall|i: int|
            0 <= i < self.entries@.len() ==> (#[trigger] self.entries@[i]).0 < self.next_token
        &&& forall|i: int, j: int|
            0 <= i < self.entries@.len() && 0 <= j < self.entries@.len() && i != j ==> (
            #[trigger] self.entries@[i]).0 != (#[trigger] self.entries@[j]).0
    }

    /// The live entries, oldest first.
    pub closed spec fn entries_view(&self) -> Seq<(u64, V)> {
        self.entries@
    }

    /// How many tokens have been issued so far; every live token is below it.
    pub closed spec fn issued(&self) -> u64 {
        self.next_token
    }

    /// Whether some live entry carries this token.
    pub open spec fn contains_token(&self, token: u64) -> bool {
        exists|i: int|
            0 <= i < self.entries_view().len() && (#[trigger] self.entries_view()[i]).0 == token
    }

    /// How many entries are live.
    pub open spec fn live_count(&self) -> nat {
        self.entries_view().len()
    }

    /// An empty registry.
    pub fn new() -> (r: Self)
        ensures
            r.live_count() == 0,
            r.issued() == 0,
            r.entries_view() == Seq::<(u64, V)>::empty(),
    {
        let r = SignalRegistry { entries: Vec::new(), next_token: 0 };
        proof {
            assert(r.entries@ =~= Seq::<(u64, V)>::empty());
        }
        r
    }

    /// Registers a counterpart endpoint and returns the fresh identity token
    /// of its owner.  The token was never seen in this registry before, and
    /// every other entry is untouched.
    pub fn register(&mut self, counterpart: V) -> (token: u64)
        requires
            old(self).issued() < u64::MAX,
        ensures
            token == old(self).issued(),
            final(self).issued() == old(self).issued() + 1,
            final(self).entries_view() == old(self).entries_view().push((token, counterpart)),
            !old(self).contains_token(token),
            final(self).contains_token(token),
            final(self).live_count() == old(self).live_count() + 1,
            forall|k: u64|
                #[trigger] final(self).contains_token(k) <==> (old(self).contains_token(k) || k
                    == token),
    {
        proof {
            use_type_invariant(&*self);
        }
        let token = self.next_token;
        let mut entries: Vec<(u64, V)> = Vec::new();
        core::mem::swap(&mut entries, &mut self.entries);
        entries.push((token, counterpart));
        let mut replacement = SignalRegistry { entries, next_token: token + 1 };
        core::mem::swap(self, &mut replacement);
        proof {
            assert(self.entries_view()[self.entries_view().len() - 1].0 == token);
            assert(!old(self).contains_token(token)) by {
                if old(self).contains_token(token) {
                    let i = choose|i: int|
                        0 <= i < old(self).entries_view().len() && (#[trigger] old(
                            self,
                        ).entries_view()[i]).0 == token;
                    assert(old(self).entries@[i].0 < token);
                }
            }
            assert forall|k: u64| #[trigger]
                self.contains_token(k) implies (old(self).contains_token(k) || k == token) by {
                let i = choose|i: int|
                    0 <= i < self.entries_view().len() && (#[trigger] self.entries_view()[i]).0
                        == k;
                if i < old(self).entries_view().len() {
                    assert(old(self).entries_view()[i].0 == k);
                }
            }
            assert forall|k: u64| old(self).contains_token(k) implies #[trigger]
                self.contains_token(k) by {
                let i = choose|i: int|
                    0 <= i < old(self).entries_view().len() && (#[trigger] old(
                        self,
                    ).entries_view()[i]).0 == k;
                assert(self.entries_view()[i].0 == k);
            }
        }
        token
    }

    /// Removes the entry carrying this token, if one is live, and compacts
    /// the backing storage.  After the call no live entry carries the token;
    /// every other entry is untouched, and something is returned exactly when
    /// the token was live.
    pub fn deregister(&mut self, token: u64) -> (removed: Option<V>)
        ensures
            final(self).issued() == old(self).issued(),
            removed is Some <==> old(self).contains_token(token),
            !final(self).contains_token(token),
            forall|k: u64|
                k != token ==> (#[trigger] final(self).contains_token(k) <==> old(
                    self,
                ).contains_token(k)),
            old(self).contains_token(token) ==> final(self).live_count() == old(self).live_count()
                - 1,
            !old(self).contains_token(token) ==> final(self).entries_view() == old(
                self,
            ).entries_view(),
            forall|i: int|
                0 <= i < final(self).entries_view().len() ==> old(self).entries_view().contains(
                    #[trigger] final(self).entries_view()[i],
                ),
    {
        proof {
            use_type_invariant(&*self);
        }
        let ghost pre = self.entries@;
        let mut entries: Vec<(u64, V)> = Vec::new();
        core::mem::swap(&mut entries, &mut self.entries);
        let n = entries.len();
        let mut i: usize = 0;
        let mut at: Option<usize> = None;
        while i < n
            invariant
                n == entries@.len(),
                entries@ == pre,
                i <= n,
                at is None ==> forall|j: int| 0 <= j < i ==> (#[trigger] pre[j]).0 != token,
                at matches Some(k) ==> k < n && pre[k as int].0 == token,
            decreases n - i,
        {
            if at.is_none() && entries[i].0 == token {
                at = Some(i);
            }
            i += 1;
        }
        let removed: Option<V> = match at {
            None => None,
            Some(k) => {
                let (_, v) = entries.remove(k);
                Some(v)
            },
        };
        compact_entries(&mut entries);
        let next_token = self.next_token;
        let mut replacement = SignalRegistry { entries, next_token };
        core::mem::swap(self, &mut replacement);
        proof {
            if let Some(k) = at {
                let ki = k as int;
                pre.remove_ensures(ki);
                assert(self.entries_view() == pre.remove(ki));
                assert(old(self).entries_view()[ki].0 == token);
                assert forall|idx: int| 0 <= idx < self.entries_view().len() implies old(
                    self,
                ).entries_view().contains(#[trigger] self.entries_view()[idx]) by {
                    if idx < ki {
                        assert(self.entries_view()[idx] == pre[idx]);
                    } else {
                        assert(self.entries_view()[idx] == pre[idx + 1]);
                    }
                }
                assert(!self.contains_token(token)) by {
                    if self.contains_token(token) {
                        let i = choose|i: int|
                            0 <= i < self.entries_view().len() && (#[trigger] self.entries_view()[i]).0 == token;
                        if i < ki {
                            assert(pre[i].0 == token && pre[ki].0 == token && i != ki);
                        } else {
                            assert(pre[i + 1].0 == token && pre[ki].0 == token && i + 1 != ki);
                        }
                    }
                }
                assert forall|c: u64| c != token implies (#[trigger] self.contains_token(c) <==> old(
                    self,
                ).contains_token(c)) by {
                    if self.contains_token(c) {
                        let i = choose|i: int|
                            0 <= i < self.entries_view().len() && (#[trigger] self.entries_view()[i]).0 == c;
                        if i < ki {
                            assert(old(self).entries_view()[i].0 == c);
                        } else {
                            assert(old(self).entries_view()[i + 1].0 == c);
                        }
                    }
                    if old(self).contains_token(c) {
                        let i = choose|i: int|
                            0 <= i < old(self).entries_view().len() && (#[trigger] old(
                                self,
                            ).entries_view()[i]).0 == c;
                        assert(i != ki);
                        if i < ki {
                            assert(self.entries_view()[i].0 == c);
                        } else {
                            assert(self.entries_view()[i - 1].0 == c);
                        }
                    }
                }
            } else {
                assert(self.entries_view() =~= pre);
                assert forall|k: u64| #[trigger]
                    self.contains_token(k) <==> old(self).contains_token(k) by {
                    if self.contains_token(k) {
                        let i = choose|i: int|
                            0 <= i < self.entries_view().len() && (#[trigger] self.entries_view()[i]).0 == k;
                        assert(old(self).entries_view()[i].0 == k);
                    }
                    if old(self).contains_token(k) {
                        let i = choose|i: int|
                            0 <= i < old(self).entries_view().len() && (#[trigger] old(
                                self,
                            ).entries_view()[i]).0 == k;
                        assert(self.entries_view()[i].0 == k);
                    }
                }
                assert(!old(self).contains_token(token)) by {
                    if old(self).contains_token(token) {
                        let i = choose|i: int|
                            0 <= i < old(self).entries_view().len() && (#[trigger] old(
                                self,
                            ).entries_view()[i]).0 == token;
                    }
                }
            }
        }
        removed
    }

    /// How many entries are live.
    pub fn len(&self) -> (n: usize)
        ensures
            n == self.live_count(),
    {
        self.entries.len()
    }

    /// Whether some live entry carries this token.
    pub fn is_registered(&self, token: u64) -> (live: bool)
        ensures
            live == self.contains_token(token),
    {
        let n = self.entries.len();
        let mut i: usize = 0;
        while i < n
            invariant
                n == self.entries@.len(),
                i <= n,
                forall|j: int| 0 <= j < i ==> (#[trigger] self.entries@[j]).0 != token,
            decreases n - i,
        {
            if self.entries[i].0 == token {
                proof {
                    assert(self.entries_view()[i as int].0 == token);
                }
                return true;
            }
            i += 1;
        }
        proof {
            if self.contains_token(token) {
                let j = choose|j: int|
                    0 <= j < self.entries_view().len() && (#[trigger] self.entries_view()[j]).0
                        == token;
            }
        }
        false
    }

    /// Whether another token can still be issued.
    pub fn can_register(&self) -> (room: bool)
        ensures
            room == (self.issued() < u64::MAX),
    {
        self.next_token < u64::MAX
    }

    /// Removes every entry and hands the counterpart endpoints out, newest
    /// first, so the embedding layer can fan a signal out to all of them or
    /// collect it from all of them.
    pub fn drain(&mut self) -> (counterparts: Vec<V>)
        ensures
            final(self).live_count() == 0,
            final(self).issued() == old(self).issued(),
            counterparts@.len() == old(self).live_count(),
            forall|j: int|
                0 <= j < counterparts@.len() ==> #[trigger] counterparts@[j] == old(
                    self,
                ).entries_view()[old(self).live_count() - 1 - j].1,
    {
        proof {
            use_type_invariant(&*self);
        }
        let ghost pre = self.entries@;
        let mut entries: Vec<(u64, V)> = Vec::new();
        core::mem::swap(&mut entries, &mut self.entries);
        let mut counterparts: Vec<V> = Vec::new();
        while entries.len() > 0
            invariant
                counterparts@.len() + entries@.len() == pre.len(),
                entries@ == pre.subrange(0, entries@.len() as int),
                forall|j: int|
                    0 <= j < counterparts@.len() ==> #[trigger] counterparts@[j] == pre[pre.len()
                        - 1 - j].1,
            decreases entries@.len(),
        {
            let ghost before = entries@;
            let last = entries.pop();
            match last {
                Some(pair) => {
                    proof {
                        assert(before[before.len() - 1] == pre[before.len() - 1]);
                    }
                    counterparts.push(pair.1);
                },
                None => {
                },
            }
        }
        counterparts
    }
}

/// Every pair of simultaneously-live entries differs in its token: identity
/// tokens are unique among the live endpoints sharing one registry.
pub proof fn lemma_live_tokens_unique<V>(r: SignalRegistry<V>)
    requires
        r.wf(),
    ensures
        forall|i: int, j: int|
            0 <= i < r.entries_view().len() && 0 <= j < r.entries_view().len() && i != j ==> (
            #[trigger] r.entries_view()[i]).0 != (#[trigger] r.entries_view()[j]).0,
{
}

/// Relies on `Vec::shrink_to_fit`: drops excess capacity and keeps the
/// elements as they are.
#[verifier::external_body]
fn compact_entries<V>(entries: &mut Vec<(u64, V)>)
    ensures
        final(entries)@ == old(entries)@,
{
    entries.shrink_to_fit();
}

} // verus!

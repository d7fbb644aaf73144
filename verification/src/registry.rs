//! The nonce registry: the shared mapping from bound port to the single-use
//! secret that binds an incoming callback POST to the session that issued
//! it. At most one nonce is associated with a port at any time; a port is
//! present exactly while a session for it has been created and not yet
//! consumed.

use vstd::prelude::*;

verus! {

/// The nonce registered for `k` among `s`, scanning the most recent entry
/// first.
pub open spec fn find_val(s: Seq<(u16, String)>, k: u16) -> Option<Seq<char>>
    decreases s.len(),
{
    if s.len() == 0 {
        Option::None
    } else if s.last().0 == k {
        Option::Some(s.last().1@)
    } else {
        find_val(s.drop_last(), k)
    }
}

proof fn lemma_find_val_absent(s: Seq<(u16, String)>, k: u16)
    requires
        forall|i: int| 0 <= i < s.len() ==> s[i].0 != k,
    ensures
        find_val(s, k) is None,
    decreases s.len(),
{
    if s.len() > 0 {
        lemma_find_val_absent(s.drop_last(), k);
    }
}

proof fn lemma_find_val_at(s: Seq<(u16, String)>, i: int, k: u16)
    requires
        forall|x: int, y: int| 0 <= x < y < s.len() ==> s[x].0 != s[y].0,
        0 <= i < s.len(),
        s[i].0 == k,
    ensures
        find_val(s, k) == Option::Some(s[i].1@),
    decreases s.len(),
{
    if i == s.len() - 1 {
    } else {
        assert(s.last().0 != k);
        assert(s.drop_last()[i] == s[i]);
        lemma_find_val_at(s.drop_last(), i, k);
    }
}

proof fn lemma_find_val_remove(s: Seq<(u16, String)>, i: int, k: u16)
    requires
        forall|x: int, y: int| 0 <= x < y < s.len() ==> s[x].0 != s[y].0,
        0 <= i < s.len(),
    ensures
        find_val(s.remove(i), k) == if s[i].0 == k {
            Option::<Seq<char>>::None
        } else {
            find_val(s, k)
        },
    decreases s.len(),
{
    if i == s.len() - 1 {
        assert(s.remove(i) =~= s.drop_last());
        if s[i].0 == k {
            assert forall|j: int| 0 <= j < s.drop_last().len() implies s.drop_last()[j].0 != k by {
                assert(s.drop_last()[j] == s[j]);
            }
            lemma_find_val_absent(s.drop_last(), k);
        }
    } else {
        assert(s.remove(i).last() == s.last());
        if s.last().0 == k {
        } else {
            assert(s.remove(i).drop_last() =~= s.drop_last().remove(i));
            assert(forall|x: int, y: int|
                0 <= x < y < s.drop_last().len() ==> s.drop_last()[x].0 != s.drop_last()[y].0);
            lemma_find_val_remove(s.drop_last(), i, k);
            assert(s.drop_last()[i] == s[i]);
        }
    }
}

/// The registry of active sessions' nonces, keyed by bound port.
pub struct NonceRegistry {
    entries: Vec<(u16, String)>,
}

impl View for NonceRegistry {
    type V = Map<u16, Seq<char>>;

    /// The registry is the mapping its entries describe.
    closed spec fn view(&self) -> Map<u16, Seq<char>> {
        Map::new(
            |p: u16| find_val(self.entries@, p) is Some,
            |p: u16| find_val(self.entries@, p)->Some_0,
        )
    }
}

impl NonceRegistry {
    /// Each active port holds exactly one entry.
    pub closed spec fn wf(&self) -> bool {
        forall|x: int, y: int|
            0 <= x < y < self.entries@.len() ==> self.entries@[x].0 != self.entries@[y].0
    }

    /// A fresh, empty registry, created once at application scope and
    /// handed to every session.
    pub fn active_nonces() -> (r: NonceRegistry)
        ensures
            r.wf(),
            r@ == Map::<u16, Seq<char>>::empty(),
    {
        let r = NonceRegistry { entries: Vec::new() };
        proof {
            assert(r@ =~= Map::<u16, Seq<char>>::empty());
        }
        r
    }

    /// Registers `nonce` for `port`, overwriting any prior entry for that
    /// port, as a fresh session reclaiming a recently freed port expects.
    pub fn insert(&mut self, port: u16, nonce: String)
        requires
            old(self).wf(),
        ensures
            final(self).wf(),
            final(self)@ == old(self)@.insert(port, nonce@),
    {
        self.remove(port);
        proof {
            assert forall|i: int| 0 <= i < self.entries@.len() implies self.entries@[i].0
                != port by {
                if self.entries@[i].0 == port {
                    lemma_find_val_at(self.entries@, i, port);
                    assert(self@.contains_key(port));
                }
            }
        }
        let ghost mid = self.entries@;
        let ghost pre = self@;
        self.entries.push((port, nonce));
        proof {
            assert(pre == old(self)@.remove(port));
            assert(self.entries@.drop_last() =~= mid);
            assert forall|k: u16| true implies find_val(self.entries@, k) == (if k == port {
                Option::Some(nonce@)
            } else {
                find_val(mid, k)
            }) by {}
            assert forall|k: u16| k != port implies find_val(mid, k) == find_val(
                old(self).entries@,
                k,
            ) by {
                assert(pre.contains_key(k) == (find_val(mid, k) is Some));
                assert(old(self)@.contains_key(k) == (find_val(old(self).entries@, k) is Some));
                if pre.contains_key(k) {
                    assert(pre[k] == find_val(mid, k)->Some_0);
                    assert(old(self)@[k] == find_val(old(self).entries@, k)->Some_0);
                }
            }
            assert(self@ =~= old(self)@.insert(port, nonce@));
        }
    }

    /// The nonce currently registered for `port`, if any.
    pub fn lookup(&self, port: u16) -> (r: Option<String>)
        requires
            self.wf(),
        ensures
            r is Some <==> self@.contains_key(port),
            (r matches Some(n) ==> self@[port] == n@),
    {
        let n = self.entries.len();
        let mut i: usize = 0;
        while i < n
            invariant
                self.wf(),
                i <= n,
                n == self.entries@.len(),
                forall|j: int| 0 <= j < i ==> self.entries@[j].0 != port,
            decreases n - i,
        {
            if self.entries[i].0 == port {
                proof {
                    lemma_find_val_at(self.entries@, i as int, port);
                }
                return Some(self.entries[i].1.clone());
            }
            i = i + 1;
        }
        proof {
            lemma_find_val_absent(self.entries@, port);
        }
        None
    }

    /// Removes the entry for `port`; removing an absent port is a no-op.
    pub fn remove(&mut self, port: u16)
        requires
            old(self).wf(),
        ensures
            final(self).wf(),
            final(self)@ == old(self)@.remove(port),
    {
        let n = self.entries.len();
        let mut i: usize = 0;
        while i < n
            invariant
                self.wf(),
                i <= n,
                self.entries@ == old(self).entries@,
                n == self.entries@.len(),
                forall|j: int| 0 <= j < i ==> self.entries@[j].0 != port,
            decreases n - i,
        {
            if self.entries[i].0 == port {
                let ghost s0 = self.entries@;
                self.entries.remove(i);
                proof {
                    assert forall|k: u16| true implies find_val(self.entries@, k) == (if k == port {
                        Option::<Seq<char>>::None
                    } else {
                        find_val(s0, k)
                    }) by {
                        lemma_find_val_remove(s0, i as int, k);
                    }
                    assert forall|x: int, y: int|
                        0 <= x < y < self.entries@.len() implies self.entries@[x].0
                        != self.entries@[y].0 by {
                        assert(self.entries@[x] == if x < i { s0[x] } else { s0[x + 1] });
                        assert(self.entries@[y] == if y < i { s0[y] } else { s0[y + 1] });
                    }
                    assert(self@ =~= old(self)@.remove(port));
                }
                return ;
            }
            i = i + 1;
        }
        proof {
            lemma_find_val_absent(self.entries@, port);
            assert(!self@.contains_key(port));
            assert(self@ =~= old(self)@.remove(port));
        }
    }
}

} // verus!

//! A small association map keyed by strings.
//!
//! The watchers keep a previous-values map per signal name, and the
//! digital-output controller keeps a port table per external name.  Both are
//! this structure: a vector of pairs with pairwise distinct keys, viewed as a
//! `Map` from character sequences to the values' views.

use vstd::prelude::*;
use crate::text::str_eq;

verus! {

/// A map from strings to values, stored as a vector of pairs whose keys are
/// pairwise distinct.
pub struct StrMap<V> {
    entries: Vec<(String, V)>,
}

impl<V: View> View for StrMap<V> {
    type V = Map<Seq<char>, V::V>;

    closed spec fn view(&self) -> Map<Seq<char>, V::V> {
        StrMap::<V>::map_of(self.entries@)
    }
}

impl<V: View> StrMap<V> {
    /// Whether some pair of `s` carries the key `k`.
    pub open spec fn has_key_in(s: Seq<(String, V)>, k: Seq<char>) -> bool {
        exists|i: int| 0 <= i < s.len() && (#[trigger] s[i]).0@ == k
    }

    /// The index of the pair of `s` carrying the key `k`.
    pub open spec fn key_index(s: Seq<(String, V)>, k: Seq<char>) -> int {
        choose|i: int| 0 <= i < s.len() && (#[trigger] s[i]).0@ == k
    }

    /// The map a sequence of pairs stands for.
    pub open spec fn map_of(s: Seq<(String, V)>) -> Map<Seq<char>, V::V> {
        Map::new(
            |k: Seq<char>| Self::has_key_in(s, k),
            |k: Seq<char>| s[Self::key_index(s, k)].1@,
        )
    }

    /// Keys are pairwise distinct.
    pub open spec fn distinct_keys(s: Seq<(String, V)>) -> bool {
        forall|i: int, j: int|
            0 <= i < j < s.len() ==> (#[trigger] s[i]).0@ != (#[trigger] s[j]).0@
    }

    /// Well-formedness: every constructor establishes it and every method
    /// keeps it.
    pub closed spec fn wf(&self) -> bool {
        Self::distinct_keys(self.entries@)
    }

    /// An empty map.
    pub fn new() -> (m: StrMap<V>)
        ensures
            m.wf(),
            m@ == Map::<Seq<char>, V::V>::empty(),
    {
        let m = StrMap { entries: Vec::new() };
        proof {
            assert(m@ =~= Map::<Seq<char>, V::V>::empty());
        }
        m
    }

    /// Looks a key up.
    pub fn get(&self, k: &str) -> (r: Option<&V>)
        requires
            self.wf(),
        ensures
            match r {
                Some(v) => self@.contains_key(k@) && v@ == self@[k@],
                None => !self@.contains_key(k@),
            },
    {
        let n = self.entries.len();
        let mut i: usize = 0;
        while i < n
            invariant
                self.wf(),
                n == self.entries@.len(),
                0 <= i <= n,
                forall|j: int| 0 <= j < i ==> (#[trigger] self.entries@[j]).0@ != k@,
            decreases n - i,
        {
            if str_eq(self.entries[i].0.as_str(), k) {
                proof {
                    let s = self.entries@;
                    assert(s[i as int].0@ == k@);
                    assert(Self::has_key_in(s, k@));
                    let ki = Self::key_index(s, k@);
                    assert(0 <= ki < s.len() && s[ki].0@ == k@);
                    if ki != i as int {
                        assert(s[ki].0@ != s[i as int].0@);
                    }
                    assert(self@[k@] == s[i as int].1@);
                }
                return Some(&self.entries[i].1);
            }
            i += 1;
        }
        proof {
            if Self::has_key_in(self.entries@, k@) {
                let j = Self::key_index(self.entries@, k@);
                assert(0 <= j < self.entries@.len() && self.entries@[j].0@ == k@);
            }
        }
        None
    }

    /// Binds a key to a value, replacing any previous binding.
    pub fn set(&mut self, k: String, v: V)
        requires
            old(self).wf(),
        ensures
            final(self).wf(),
            final(self)@ == old(self)@.insert(k@, v@),
    {
        let ghost s0 = self.entries@;
        let n = self.entries.len();
        let mut i: usize = 0;
        let mut found: bool = false;
        while i < n && !found
            invariant
                self.entries@ == s0,
                Self::distinct_keys(s0),
                n == s0.len(),
                0 <= i <= n,
                forall|j: int| 0 <= j < i ==> (#[trigger] s0[j]).0@ != k@,
                found ==> i < n && s0[i as int].0@ == k@,
            decreases n - i + (if found { 0int } else { 1int }),
        {
            if str_eq(self.entries[i].0.as_str(), k.as_str()) {
                found = true;
            } else {
                i += 1;
            }
        }
        if found {
            let _ = self.entries.remove(i);
        }
        let ghost sr = self.entries@;
        self.entries.push((k, v));
        proof {
            let s2 = self.entries@;
            let ki = i as int;
            if found {
                assert(sr == s0.remove(ki));
                assert forall|a: int| 0 <= a < sr.len() implies (#[trigger] sr[a])
                    == (if a < ki {
                    s0[a]
                } else {
                    s0[a + 1]
                }) by {
                    assert(sr == s0.subrange(0, ki) + s0.subrange(ki + 1, s0.len() as int));
                }
            } else {
                assert(sr == s0);
            }
            // sr holds exactly the pairs of s0 whose key is not k@, in order.
            assert forall|a: int| 0 <= a < sr.len() implies (#[trigger] sr[a]).0@ != k@ by {
                if found {
                    if a < ki {
                        assert(sr[a] == s0[a]);
                    } else {
                        assert(sr[a] == s0[a + 1]);
                        assert(s0[ki].0@ == k@);
                    }
                }
            }
            // distinctness of the result
            assert forall|a: int, b: int| 0 <= a < b < s2.len() implies (#[trigger] s2[a]).0@
                != (#[trigger] s2[b]).0@ by {
                if b == s2.len() - 1 {
                    assert(s2[b].0@ == k@);
                    assert(s2[a] == sr[a]);
                } else {
                    assert(s2[a] == sr[a] && s2[b] == sr[b]);
                    if found {
                        let a0: int = if a < ki {
                            a
                        } else {
                            a + 1
                        };
                        let b0: int = if b < ki {
                            b
                        } else {
                            b + 1
                        };
                        assert(s0[a0].0@ != s0[b0].0@);
                    }
                }
            }
            assert(final(self).wf());
            // the two maps agree
            let m_new = Self::map_of(s2);
            let m_goal = Self::map_of(s0).insert(k@, v@);
            assert forall|m: Seq<char>| m_new.contains_key(m) implies m_goal.contains_key(m)
                && m_new[m] == m_goal[m] by {
                let j = Self::key_index(s2, m);
                assert(0 <= j < s2.len() && s2[j].0@ == m);
                if j == s2.len() - 1 {
                    assert(m == k@);
                    assert(m_new[m] == v@);
                } else {
                    assert(s2[j] == sr[j]);
                    assert(m != k@);
                    let j0: int = if found && j >= ki {
                        j + 1
                    } else {
                        j
                    };
                    assert(s0[j0] == sr[j]);
                    assert(Self::has_key_in(s0, m));
                    let oi = Self::key_index(s0, m);
                    assert(0 <= oi < s0.len() && s0[oi].0@ == m);
                    if oi != j0 {
                        assert(s0[oi].0@ != s0[j0].0@);
                    }
                    assert(m_goal[m] == s0[j0].1@);
                    let nj = Self::key_index(s2, m);
                    if nj != j {
                        if nj == s2.len() - 1 {
                            assert(s2[nj].0@ == k@);
                        } else {
                            assert(s2[nj] == sr[nj]);
                            let nj0: int = if found && nj >= ki {
                                nj + 1
                            } else {
                                nj
                            };
                            assert(s0[nj0].0@ != s0[j0].0@);
                        }
                    }
                    assert(m_new[m] == s2[j].1@);
                }
            }
            assert forall|m: Seq<char>| m_goal.contains_key(m) implies m_new.contains_key(m) by {
                if m == k@ {
                    assert(s2[s2.len() - 1].0@ == k@);
                    assert(Self::has_key_in(s2, m));
                } else {
                    assert(Self::has_key_in(s0, m));
                    let oi = Self::key_index(s0, m);
                    assert(0 <= oi < s0.len() && s0[oi].0@ == m);
                    if found {
                        if oi < ki {
                            assert(sr[oi] == s0[oi]);
                            assert(s2[oi] == sr[oi]);
                        } else {
                            assert(oi != ki);
                            assert(sr[oi - 1] == s0[oi]);
                            assert(s2[oi - 1] == sr[oi - 1]);
                        }
                    } else {
                        assert(s2[oi] == s0[oi]);
                    }
                    assert(Self::has_key_in(s2, m));
                }
            }
            assert(m_new =~= m_goal);
        }
    }
}

} // verus!

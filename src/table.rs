//! `Table`: a map from strings to values, kept as a list of entries sorted
//! by key, so that its keys come out in order.
use vstd::prelude::*;

verus! {

/// Strict lexicographic order of code points, which is the order of `str`.
pub open spec fn lex_lt(a: Seq<char>, b: Seq<char>) -> bool
    decreases a.len(),
{
    if a.len() == 0 {
        b.len() > 0
    } else if b.len() == 0 {
        false
    } else if a[0] != b[0] {
        (a[0] as int) < (b[0] as int)
    } else {
        lex_lt(a.drop_first(), b.drop_first())
    }
}

pub proof fn lemma_lex_irreflexive(a: Seq<char>)
    ensures
        !lex_lt(a, a),
    decreases a.len(),
{
    if a.len() > 0 {
        lemma_lex_irreflexive(a.drop_first());
    }
}

pub proof fn lemma_lex_transitive(a: Seq<char>, b: Seq<char>, c: Seq<char>)
    requires
        lex_lt(a, b),
        lex_lt(b, c),
    ensures
        lex_lt(a, c),
    decreases a.len(),
{
    if a.len() > 0 && b.len() > 0 && c.len() > 0 && a[0] == b[0] && b[0] == c[0] {
        lemma_lex_transitive(a.drop_first(), b.drop_first(), c.drop_first());
    }
}

pub proof fn lemma_lex_total(a: Seq<char>, b: Seq<char>)
    requires
        a != b,
    ensures
        lex_lt(a, b) || lex_lt(b, a),
    decreases a.len(),
{
    if a.len() == 0 && b.len() == 0 {
        assert(a =~= b);
    }
    if a.len() > 0 && b.len() > 0 && a[0] != b[0] {
        assert((a[0] as int) != (b[0] as int));
    }
    if a.len() > 0 && b.len() > 0 && a[0] == b[0] {
        if a.drop_first() == b.drop_first() {
            assert(a =~= seq![a[0]] + a.drop_first());
            assert(b =~= seq![b[0]] + b.drop_first());
        }
        lemma_lex_total(a.drop_first(), b.drop_first());
    }
}

/// Compares two strings in the order of `str`.
pub fn lex_less(a: &str, b: &str) -> (r: bool)
    ensures
        r == lex_lt(a@, b@),
{
    let na = a.unicode_len();
    let nb = b.unicode_len();
    let mut i: usize = 0;
    assert(a@.subrange(0, na as int) =~= a@);
    assert(b@.subrange(0, nb as int) =~= b@);
    loop
        invariant
            na == a@.len(),
            nb == b@.len(),
            i <= na,
            i <= nb,
            lex_lt(a@, b@) == lex_lt(a@.subrange(i as int, na as int), b@.subrange(i as int, nb as int)),
        decreases na - i,
    {
        if i == na {
            return i < nb;
        }
        if i == nb {
            return false;
        }
        let ca = a.get_char(i);
        let cb = b.get_char(i);
        let ghost sa = a@.subrange(i as int, na as int);
        let ghost sb = b@.subrange(i as int, nb as int);
        assert(sa[0] == ca && sb[0] == cb);
        if ca != cb {
            return (ca as u32) < (cb as u32);
        }
        assert(sa.drop_first() =~= a@.subrange(i + 1, na as int));
        assert(sb.drop_first() =~= b@.subrange(i + 1, nb as int));
        i = i + 1;
    }
}

/// Whether two strings are equal.
pub fn text_eq(a: &str, b: &str) -> (r: bool)
    ensures
        r == (a@ == b@),
{
    let n = a.unicode_len();
    if n != b.unicode_len() {
        return false;
    }
    let mut i: usize = 0;
    while i < n
        invariant
            n == a@.len() == b@.len(),
            i <= n,
            forall|j: int| 0 <= j < i ==> a@[j] == b@[j],
        decreases n - i,
    {
        if a.get_char(i) != b.get_char(i) {
            return false;
        }
        i = i + 1;
    }
    assert(a@ =~= b@);
    true
}

/// A map from strings to values.
#[derive(Debug, Clone, PartialEq, Eq)]
pub struct Table<T> {
    entries: Vec<(String, T)>,
}

impl<T> Table<T> {
    /// The keys are in strictly increasing order.
    pub closed spec fn wf(&self) -> bool {
        forall|i: int, j: int|
            0 <= i < j < self.entries@.len() ==> lex_lt(
                #[trigger] self.entries@[i].0@,
                #[trigger] self.entries@[j].0@,
            )
    }

    spec fn has_key_at(&self, k: Seq<char>, i: int) -> bool {
        0 <= i < self.entries@.len() && self.entries@[i].0@ == k
    }

    /// The value under `k`, if any.
    pub closed spec fn lookup(&self, k: Seq<char>) -> Option<T> {
        if exists|i: int| self.has_key_at(k, i) {
            Some(self.entries@[choose|i: int| self.has_key_at(k, i)].1)
        } else {
            None
        }
    }

    /// The keys, in increasing order.
    pub closed spec fn key_seq(&self) -> Seq<Seq<char>> {
        self.entries@.map_values(|e: (String, T)| e.0@)
    }

    proof fn lemma_at(&self, i: int)
        requires
            self.wf(),
            0 <= i < self.entries@.len(),
        ensures
            self.lookup(self.entries@[i].0@) == Some(self.entries@[i].1),
    {
        let k = self.entries@[i].0@;
        assert(self.has_key_at(k, i));
        let c = choose|c: int| self.has_key_at(k, c);
        if c < i {
            lemma_lex_irreflexive(k);
            assert(lex_lt(self.entries@[c].0@, self.entries@[i].0@));
        } else if c > i {
            lemma_lex_irreflexive(k);
            assert(lex_lt(self.entries@[i].0@, self.entries@[c].0@));
        }
    }

    /// `p` is where `k` goes: keys before it are smaller, and `k` is
    /// smaller than the key at `p`, so that no key is `k`.
    proof fn lemma_absent(&self, k: Seq<char>, p: int)
        requires
            self.wf(),
            0 <= p <= self.entries@.len(),
            forall|i: int| 0 <= i < p ==> lex_lt(#[trigger] self.entries@[i].0@, k),
            p < self.entries@.len() ==> lex_lt(k, self.entries@[p].0@),
        ensures
            forall|i: int| !self.has_key_at(k, i),
            self.lookup(k) is None,
    {
        assert forall|i: int| !self.has_key_at(k, i) by {
            if self.has_key_at(k, i) {
                lemma_lex_irreflexive(k);
                if i > p {
                    assert(lex_lt(self.entries@[p].0@, self.entries@[i].0@));
                    lemma_lex_transitive(k, self.entries@[p].0@, self.entries@[i].0@);
                }
            }
        }
    }

    /// The first index whose key is not below `k`, and whether its key is `k`.
    fn position(&self, k: &str) -> (r: (usize, bool))
        requires
            self.wf(),
        ensures
            r.0 <= self.entries@.len(),
            forall|i: int| 0 <= i < r.0 ==> lex_lt(#[trigger] self.entries@[i].0@, k@),
            r.0 < self.entries@.len() ==> !lex_lt(self.entries@[r.0 as int].0@, k@),
            r.1 == (r.0 < self.entries@.len() && self.entries@[r.0 as int].0@ == k@),
    {
        let mut p: usize = 0;
        while p < self.entries.len() && lex_less(self.entries[p].0.as_str(), k)
            invariant
                p <= self.entries@.len(),
                forall|i: int| 0 <= i < p ==> lex_lt(#[trigger] self.entries@[i].0@, k@),
            decreases self.entries@.len() - p,
        {
            p = p + 1;
        }
        let found = p < self.entries.len() && text_eq(self.entries[p].0.as_str(), k);
        (p, found)
    }

    /// An empty table.
    pub fn new() -> (r: Self)
        ensures
            r.wf(),
            r@ == Map::<Seq<char>, T>::empty(),
    {
        let r = Table { entries: Vec::new() };
        assert(r@ =~= Map::<Seq<char>, T>::empty());
        r
    }

    /// Whether the table has no entry.
    pub fn is_empty(&self) -> (r: bool)
        requires
            self.wf(),
        ensures
            r == (self@ == Map::<Seq<char>, T>::empty()),
    {
        if self.entries.len() == 0 {
            assert(self@ =~= Map::<Seq<char>, T>::empty());
            true
        } else {
            proof {
                self.lemma_at(0);
                assert(self@.contains_key(self.entries@[0].0@));
            }
            false
        }
    }

    /// The value under `k`.
    pub fn get(&self, k: &str) -> (r: Option<&T>)
        requires
            self.wf(),
        ensures
            match r {
                Some(v) => self@.contains_key(k@) && self@[k@] == *v,
                None => !self@.contains_key(k@),
            },
    {
        let (p, found) = self.position(k);
        if found {
            proof {
                self.lemma_at(p as int);
            }
            Some(&self.entries[p].1)
        } else {
            proof {
                if p < self.entries@.len() {
                    lemma_lex_total(self.entries@[p as int].0@, k@);
                }
                self.lemma_absent(k@, p as int);
            }
            None
        }
    }

    /// The keys, in increasing order.
    pub fn keys(&self) -> (r: Vec<&String>)
        requires
            self.wf(),
        ensures
            r@.map_values(|s: &String| s@) == self.key_seq(),
            forall|i: int, j: int|
                0 <= i < j < r@.len() ==> lex_lt(#[trigger] r@[i]@, #[trigger] r@[j]@),
            forall|k: Seq<char>| self@.contains_key(k) <==> self.key_seq().contains(k),
    {
        let mut r: Vec<&String> = Vec::new();
        let mut i: usize = 0;
        while i < self.entries.len()
            invariant
                i <= self.entries@.len(),
                r@.len() == i,
                forall|j: int| 0 <= j < i ==> r@[j]@ == self.entries@[j].0@,
            decreases self.entries@.len() - i,
        {
            r.push(&self.entries[i].0);
            i = i + 1;
        }
        assert(r@.map_values(|s: &String| s@) =~= self.key_seq());
        assert forall|k: Seq<char>| self@.contains_key(k) <==> self.key_seq().contains(k) by {
            if self.key_seq().contains(k) {
                let j = choose|j: int| 0 <= j < self.key_seq().len() && self.key_seq()[j] == k;
                self.lemma_at(j);
            }
            if self@.contains_key(k) {
                let j = choose|j: int| self.has_key_at(k, j);
                assert(self.key_seq()[j] == k);
            }
        }
        r
    }

    /// Puts `v` under `k`, giving back what was there.
    pub fn insert(&mut self, k: String, v: T) -> (r: Option<T>)
        requires
            old(self).wf(),
        ensures
            final(self).wf(),
            final(self)@ == old(self)@.insert(k@, v),
            r == (if old(self)@.contains_key(k@) {
                Some(old(self)@[k@])
            } else {
                None
            }),
    {
        let ghost old_entries = self.entries@;
        let (p, found) = self.position(k.as_str());
        if found {
            proof {
                self.lemma_at(p as int);
            }
            let prev = self.entries.remove(p);
            self.entries.insert(p, (k, v));
            assert(self.entries@ =~= old_entries.update(p as int, (self.entries@[p as int].0, v)));
            proof {
                assert forall|k2: Seq<char>| k2 != k@ implies self.lookup(k2) == old(self).lookup(
                    k2,
                ) by {
                    if exists|i: int| old(self).has_key_at(k2, i) {
                        let i = choose|i: int| old(self).has_key_at(k2, i);
                        old(self).lemma_at(i);
                        self.lemma_at(i);
                    } else {
                        assert forall|i: int| !self.has_key_at(k2, i) by {
                            if self.has_key_at(k2, i) {
                                assert(old(self).has_key_at(k2, i));
                            }
                        }
                    }
                }
                self.lemma_at(p as int);
                assert(self@ =~= old(self)@.insert(k@, v));
            }
            Some(prev.1)
        } else {
            proof {
                if p < self.entries@.len() {
                    lemma_lex_total(self.entries@[p as int].0@, k@);
                }
                self.lemma_absent(k@, p as int);
            }
            self.entries.insert(p, (k, v));
            proof {
                assert forall|i: int, j: int|
                    0 <= i < j < self.entries@.len() implies lex_lt(
                    #[trigger] self.entries@[i].0@,
                    #[trigger] self.entries@[j].0@,
                ) by {
                    if i < p && j > p {
                        assert(lex_lt(old_entries[i].0@, k@));
                        assert(self.entries@[j] == old_entries[j - 1]);
                        if j - 1 > p {
                            assert(lex_lt(old_entries[p as int].0@, old_entries[j - 1].0@));
                            lemma_lex_transitive(k@, old_entries[p as int].0@, old_entries[j - 1].0@);
                        }
                        lemma_lex_transitive(old_entries[i].0@, k@, old_entries[j - 1].0@);
                    } else if i == p && j - 1 > p {
                        assert(lex_lt(old_entries[p as int].0@, old_entries[j - 1].0@));
                        lemma_lex_transitive(k@, old_entries[p as int].0@, old_entries[j - 1].0@);
                    } else if i > p {
                        assert(lex_lt(old_entries[i - 1].0@, old_entries[j - 1].0@));
                    }
                }
                assert forall|k2: Seq<char>| k2 != k@ implies self.lookup(k2) == old(self).lookup(
                    k2,
                ) by {
                    if exists|i: int| old(self).has_key_at(k2, i) {
                        let i = choose|i: int| old(self).has_key_at(k2, i);
                        old(self).lemma_at(i);
                        if i < p {
                            self.lemma_at(i);
                        } else {
                            assert(self.entries@[i + 1] == old_entries[i]);
                            self.lemma_at(i + 1);
                        }
                    } else {
                        assert forall|i: int| !self.has_key_at(k2, i) by {
                            if self.has_key_at(k2, i) {
                                if i < p {
                                    assert(old(self).has_key_at(k2, i));
                                } else if i > p {
                                    assert(old(self).has_key_at(k2, i - 1));
                                }
                            }
                        }
                    }
                }
                self.lemma_at(p as int);
                assert(self@ =~= old(self)@.insert(k@, v));
            }
            None
        }
    }

    /// Takes out the value under `k`.
    pub fn remove(&mut self, k: &str) -> (r: Option<T>)
        requires
            old(self).wf(),
        ensures
            final(self).wf(),
            final(self)@ == old(self)@.remove(k@),
            r == (if old(self)@.contains_key(k@) {
                Some(old(self)@[k@])
            } else {
                None
            }),
    {
        let ghost old_entries = self.entries@;
        let (p, found) = self.position(k);
        if found {
            proof {
                self.lemma_at(p as int);
            }
            let prev = self.entries.remove(p);
            proof {
                assert forall|i: int, j: int|
                    0 <= i < j < self.entries@.len() implies lex_lt(
                    #[trigger] self.entries@[i].0@,
                    #[trigger] self.entries@[j].0@,
                ) by {
                    let i0 = if i < p {
                        i
                    } else {
                        i + 1
                    };
                    let j0 = if j < p {
                        j
                    } else {
                        j + 1
                    };
                    assert(lex_lt(old_entries[i0].0@, old_entries[j0].0@));
                }
                assert forall|k2: Seq<char>| k2 != k@ implies self.lookup(k2) == old(self).lookup(
                    k2,
                ) by {
                    if exists|i: int| old(self).has_key_at(k2, i) {
                        let i = choose|i: int| old(self).has_key_at(k2, i);
                        old(self).lemma_at(i);
                        if i < p {
                            self.lemma_at(i);
                        } else {
                            self.lemma_at(i - 1);
                        }
                    } else {
                        assert forall|i: int| !self.has_key_at(k2, i) by {
                            if self.has_key_at(k2, i) {
                                if i < p {
                                    assert(old(self).has_key_at(k2, i));
                                } else {
                                    assert(old(self).has_key_at(k2, i + 1));
                                }
                            }
                        }
                    }
                }
                assert forall|i: int| !self.has_key_at(k@, i) by {
                    if self.has_key_at(k@, i) {
                        lemma_lex_irreflexive(k@);
                        if i < p {
                            assert(lex_lt(old_entries[i].0@, old_entries[p as int].0@));
                        } else {
                            assert(lex_lt(old_entries[p as int].0@, old_entries[i + 1].0@));
                        }
                    }
                }
                assert(self@ =~= old(self)@.remove(k@));
            }
            Some(prev.1)
        } else {
            proof {
                if p < self.entries@.len() {
                    lemma_lex_total(self.entries@[p as int].0@, k@);
                }
                self.lemma_absent(k@, p as int);
                assert(self@ =~= old(self)@.remove(k@));
            }
            None
        }
    }
}

impl<T> View for Table<T> {
    type V = Map<Seq<char>, T>;

    closed spec fn view(&self) -> Map<Seq<char>, T> {
        Map::new(|k: Seq<char>| self.lookup(k) is Some, |k: Seq<char>| self.lookup(k)->Some_0)
    }
}

} // verus!

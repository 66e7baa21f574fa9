//! Records kept by name, as the daemon's storage files hold them.

use vstd::prelude::*;
use crate::text::str_equal;

verus! {

/// The map that a list of named entries stands for: a later entry for a
/// name takes the place of an earlier one.
pub open spec fn entries_map<V: View>(s: Seq<(String, V)>) -> Map<Seq<char>, V::V>
    decreases s.len(),
{
    if s.len() == 0 {
        Map::empty()
    } else {
        entries_map(s.drop_last()).insert(s.last().0@, s.last().1@)
    }
}

/// Records kept by name, as the daemon's storage files hold them.
pub struct Store<V> {
    pub entries: Vec<(String, V)>,
}

impl<V: View> View for Store<V> {
    type V = Map<Seq<char>, V::V>;

    open spec fn view(&self) -> Map<Seq<char>, V::V> {
        entries_map(self.entries@)
    }
}

proof fn lemma_take_step<V: View>(s: Seq<(String, V)>, i: int)
    requires
        0 <= i < s.len(),
    ensures
        entries_map(s.take(i + 1)) == entries_map(s.take(i)).insert(s[i].0@, s[i].1@),
{
    assert(s.take(i + 1).drop_last() =~= s.take(i));
}

impl<V: View> Store<V> {
    /// A store that holds nothing.
    pub fn new() -> (r: Self)
        ensures
            r@ == Map::<Seq<char>, V::V>::empty(),
    {
        Store { entries: Vec::new() }
    }

    /// Where the entry that counts for `key` stands, if any.
    fn position(&self, key: &str) -> (r: Option<usize>)
        ensures
            r is Some == self@.dom().contains(key@),
            r matches Some(j) ==> j < self.entries@.len() && self.entries@[j as int].0@ == key@
                && self@[key@] == self.entries@[j as int].1@,
    {
        let n = self.entries.len();
        let mut found: Option<usize> = None;
        let mut i: usize = 0;
        assert(self.entries@.take(0) =~= Seq::<(String, V)>::empty());
        while i < n
            invariant
                n == self.entries@.len(),
                i <= n,
                found is Some == entries_map(self.entries@.take(i as int)).dom().contains(key@),
                found matches Some(j) ==> j < i && self.entries@[j as int].0@ == key@
                    && entries_map(self.entries@.take(i as int))[key@]
                    == self.entries@[j as int].1@,
            decreases n - i,
        {
            proof {
                lemma_take_step(self.entries@, i as int);
            }
            if str_equal(self.entries[i].0.as_str(), key) {
                found = Some(i);
            }
            i = i + 1;
        }
        assert(self.entries@.take(n as int) =~= self.entries@);
        found
    }

    /// Whether a record is kept under `key`.
    pub fn contains_key(&self, key: &str) -> (r: bool)
        ensures
            r == self@.dom().contains(key@),
    {
        self.position(key).is_some()
    }

    /// The record kept under `key`, if any.
    pub fn get(&self, key: &str) -> (r: Option<&V>)
        ensures
            r is Some == self@.dom().contains(key@),
            r matches Some(v) ==> v@ == self@[key@],
    {
        match self.position(key) {
            Some(j) => Some(&self.entries[j].1),
            None => None,
        }
    }

    /// Forgets the record kept under `key`, if any.
    pub fn remove(&mut self, key: &str)
        ensures
            final(self)@ == old(self)@.remove(key@),
    {
        let ghost orig = self.entries@;
        let mut i: usize = 0;
        let ghost mut j: int = 0;
        assert(orig.take(0) =~= Seq::<(String, V)>::empty());
        assert(self.entries@.take(0) =~= Seq::<(String, V)>::empty());
        assert(self.entries@.skip(0) =~= orig.skip(0));
        while i < self.entries.len()
            invariant
                0 <= j <= orig.len(),
                i <= self.entries@.len(),
                self.entries@.skip(i as int) == orig.skip(j),
                entries_map(self.entries@.take(i as int)) == entries_map(orig.take(j)).remove(
                    key@,
                ),
            decreases self.entries@.len() - i,
        {
            let ghost cur = self.entries@;
            assert(cur.skip(i as int).len() > 0);
            assert(orig.skip(j).len() == orig.len() - j);
            assert(cur[i as int] == cur.skip(i as int)[0]);
            assert(orig[j] == orig.skip(j)[0]);
            proof {
                lemma_take_step(orig, j);
            }
            if str_equal(self.entries[i].0.as_str(), key) {
                self.entries.remove(i);
                proof {
                    assert(self.entries@.take(i as int) =~= cur.take(i as int));
                    assert(self.entries@.skip(i as int) =~= cur.skip(i + 1));
                    assert(cur.skip(i + 1) =~= cur.skip(i as int).drop_first());
                    assert(orig.skip(j + 1) =~= orig.skip(j).drop_first());
                    assert(entries_map(orig.take(j + 1)).remove(key@) =~= entries_map(
                        orig.take(j),
                    ).remove(key@));
                    j = j + 1;
                }
            } else {
                proof {
                    lemma_take_step(cur, i as int);
                    assert(cur.skip(i + 1) =~= cur.skip(i as int).drop_first());
                    assert(orig.skip(j + 1) =~= orig.skip(j).drop_first());
                    assert(entries_map(orig.take(j + 1)).remove(key@) =~= entries_map(
                        orig.take(j),
                    ).remove(key@).insert(cur[i as int].0@, cur[i as int].1@));
                    j = j + 1;
                }
                i = i + 1;
            }
        }
        proof {
            assert(self.entries@.take(i as int) =~= self.entries@);
            assert(orig.skip(j).len() == 0);
            assert(orig.take(j) =~= orig);
        }
    }

    /// Keeps `value` under `key`, in place of any record kept there before.
    pub fn insert(&mut self, key: String, value: V)
        ensures
            final(self)@ == old(self)@.insert(key@, value@),
    {
        self.remove(key.as_str());
        let ghost before = self.entries@;
        self.entries.push((key, value));
        proof {
            assert(self.entries@.drop_last() =~= before);
            assert(self@ =~= old(self)@.insert(key@, value@));
        }
    }
}

} // verus!

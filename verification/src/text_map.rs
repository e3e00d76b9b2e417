//! A mapping from text to text that remembers the order of insertion.
use crate::text::{chars_of, chars_eq};
use vstd::prelude::*;

verus! {

/// The mapping that results from inserting `entries` in order: a later entry
/// replaces an earlier one with the same key.
pub open spec fn map_of(entries: Seq<(Seq<char>, Seq<char>)>) -> Map<Seq<char>, Seq<char>>
    decreases entries.len(),
{
    if entries.len() == 0 {
        Map::empty()
    } else {
        map_of(entries.drop_last()).insert(entries.last().0, entries.last().1)
    }
}

/// Inserting one more entry inserts it into the mapping.
pub proof fn lemma_map_of_push(entries: Seq<(Seq<char>, Seq<char>)>, key: Seq<char>, value: Seq<char>)
    ensures
        map_of(entries.push((key, value))) == map_of(entries).insert(key, value),
{
    assert(entries.push((key, value)).drop_last() =~= entries);
}

/// Header names to values, or parameter names to values.
///
/// Entries are kept in the order in which they were inserted. Seen as a
/// mapping, a key stands for the value that was inserted last under it.
#[derive(Debug)]
pub struct TextMap {
    entries: Vec<(String, String)>,
}

impl View for TextMap {
    type V = Map<Seq<char>, Seq<char>>;

    closed spec fn view(&self) -> Map<Seq<char>, Seq<char>> {
        map_of(self.entries.deep_view())
    }
}

impl TextMap {
    /// The entries in insertion order.
    pub closed spec fn entries(self) -> Seq<(Seq<char>, Seq<char>)> {
        self.entries.deep_view()
    }

    /// The view is the mapping built from the entries in order.
    pub proof fn lemma_view(self)
        ensures
            self@ == map_of(self.entries()),
    {
    }

    /// The empty mapping.
    pub fn new() -> (r: Self)
        ensures
            r.entries() == Seq::<(Seq<char>, Seq<char>)>::empty(),
            r@ == Map::<Seq<char>, Seq<char>>::empty(),
    {
        let r = TextMap { entries: Vec::new() };
        assert(r.entries.deep_view() =~= Seq::empty());
        r
    }

    /// Inserts `value` under `key`, replacing what stood there.
    pub fn insert(&mut self, key: String, value: String)
        ensures
            final(self).entries() == old(self).entries().push((key@, value@)),
            final(self)@ == old(self)@.insert(key@, value@),
    {
        let ghost before = self.entries.deep_view();
        proof {
            lemma_map_of_push(before, key@, value@);
        }
        self.entries.push((key, value));
        assert(self.entries.deep_view() =~= before.push((key@, value@)));
    }

    /// The value that stands under `key`, if any.
    pub fn get(&self, key: &str) -> (r: Option<&String>)
        ensures
            r is Some <==> self@.contains_key(key@),
            r matches Some(v) ==> v@ == self@[key@],
    {
        let wanted = chars_of(key);
        let ghost all = self.entries.deep_view();
        let mut i: usize = self.entries.len();
        assert(all.take(i as int) =~= all);
        while i > 0
            invariant
                i <= self.entries@.len(),
                all == self.entries.deep_view(),
                wanted@ == key@,
                self@.contains_key(key@) <==> map_of(all.take(i as int)).contains_key(key@),
                self@.contains_key(key@) ==> self@[key@] == map_of(all.take(i as int))[key@],
            decreases i,
        {
            i -= 1;
            let entry = &self.entries[i];
            let name = chars_of(entry.0.as_str());
            proof {
                let upto = all.take(i + 1);
                assert(upto.drop_last() =~= all.take(i as int));
                assert(upto.last() == (entry.0@, entry.1@));
            }
            if chars_eq(name.as_slice(), wanted.as_slice()) {
                return Some(&entry.1);
            }
        }
        assert(all.take(0) =~= Seq::empty());
        None
    }

    /// Whether a value stands under `key`.
    pub fn contains_key(&self, key: &str) -> (r: bool)
        ensures
            r == self@.contains_key(key@),
    {
        self.get(key).is_some()
    }
}

} // verus!

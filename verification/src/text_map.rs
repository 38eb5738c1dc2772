//! A small map from text to text that keeps its entries in the order in which
//! their keys were first inserted.
//!
//! vstd states what std's `HashMap` does only for keys that obey its key
//! model, which it grants to integers and not to `String`: of a hash map with
//! text keys not even the length after one insertion can be proved. This map
//! stands where such a map would, with its one invariant stated: no key
//! occurs twice.

use vstd::prelude::*;

verus! {

/// The entries of a map as a list of pairs of key and value.
pub type Entries = Seq<(Seq<char>, Seq<char>)>;

/// No key occurs twice.
pub open spec fn keys_distinct(entries: Entries) -> bool {
    forall|i: int, j: int| 0 <= i < j < entries.len() ==> entries[i].0 != entries[j].0
}

/// The position of the entry for `key`, if there is one.
pub open spec fn position_of(entries: Entries, key: Seq<char>) -> Option<int>
    decreases entries.len(),
{
    if entries.len() == 0 {
        None
    } else {
        match position_of(entries.drop_last(), key) {
            Some(at) => Some(at),
            None => if entries.last().0 == key {
                Some(entries.len() - 1)
            } else {
                None
            },
        }
    }
}

/// The value stored for `key`, if there is one.
pub open spec fn value_of(entries: Entries, key: Seq<char>) -> Option<Seq<char>> {
    match position_of(entries, key) {
        Some(at) => Some(entries[at].1),
        None => None,
    }
}

/// The entries after `value` has been stored for `key`: an entry that was
/// there keeps its place and gets the new value, a new one goes to the end.
pub open spec fn inserted(entries: Entries, key: Seq<char>, value: Seq<char>) -> Entries {
    match position_of(entries, key) {
        Some(at) => entries.update(at, (key, value)),
        None => entries.push((key, value)),
    }
}

/// What `position_of` finds is the first entry with that key, and it finds
/// none only where no entry has it.
pub proof fn lemma_position_of(entries: Entries, key: Seq<char>)
    ensures
        match position_of(entries, key) {
            Some(at) => {
                &&& 0 <= at < entries.len()
                &&& entries[at].0 == key
                &&& forall|i: int| 0 <= i < at ==> entries[i].0 != key
            },
            None => forall|i: int| 0 <= i < entries.len() ==> entries[i].0 != key,
        },
    decreases entries.len(),
{
    if entries.len() > 0 {
        let front = entries.drop_last();
        lemma_position_of(front, key);
        assert forall|i: int| 0 <= i < front.len() implies front[i] == entries[i] by {}
    }
}

/// Storing a value keeps the keys distinct, and the value is then the one
/// found for its key.
pub proof fn lemma_inserted(entries: Entries, key: Seq<char>, value: Seq<char>)
    requires
        keys_distinct(entries),
    ensures
        keys_distinct(inserted(entries, key, value)),
        value_of(inserted(entries, key, value), key) == Some(value),
{
    lemma_position_of(entries, key);
    let after = inserted(entries, key, value);
    lemma_position_of(after, key);
    match position_of(entries, key) {
        Some(at) => {
            assert(after[at].0 == key);
        },
        None => {
            assert(after[entries.len() as int].0 == key);
        },
    }
}

/// An ordered map from text to text.
#[derive(Debug, PartialEq, Eq)]
pub struct TextMap {
    entries: Vec<(String, String)>,
}

impl DeepView for TextMap {
    type V = Entries;

    closed spec fn deep_view(&self) -> Entries {
        self.entries.deep_view()
    }
}

impl View for TextMap {
    type V = Entries;

    open spec fn view(&self) -> Entries {
        self.deep_view()
    }
}

impl Clone for TextMap {
    fn clone(&self) -> (copy: Self)
        ensures
            copy@ == self@,
    {
        proof {
            use_type_invariant(self);
        }
        let mut entries: Vec<(String, String)> = Vec::new();
        let mut i: usize = 0;
        while i < self.entries.len()
            invariant
                i <= self.entries.len(),
                entries.deep_view() =~= self.entries.deep_view().take(i as int),
            decreases self.entries.len() - i,
        {
            let ghost before = entries.deep_view();
            let key = self.entries[i].0.clone();
            let value = self.entries[i].1.clone();
            entries.push((key, value));
            assert(entries.deep_view() =~= before.push((key@, value@)));
            i += 1;
        }
        assert(self.entries.deep_view().take(i as int) =~= self.entries.deep_view());
        TextMap { entries }
    }
}

impl TextMap {
    #[verifier::type_invariant]
    spec fn well_formed(self) -> bool {
        keys_distinct(self.entries.deep_view())
    }

    /// A map without entries.
    pub fn new() -> (map: Self)
        ensures
            map@ == Entries::empty(),
    {
        let map = TextMap { entries: Vec::new() };
        assert(map.entries.deep_view() =~= Entries::empty());
        map
    }

    /// The number of entries.
    pub fn len(&self) -> (len: usize)
        ensures
            len == self@.len(),
    {
        self.entries.len()
    }

    /// The entries in the order in which their keys were first inserted. No
    /// key occurs twice among them.
    pub fn get_entries(&self) -> (entries: &Vec<(String, String)>)
        ensures
            entries.deep_view() == self@,
            keys_distinct(self@),
    {
        proof {
            use_type_invariant(self);
        }
        &self.entries
    }

    fn find(&self, key: &str) -> (found: Option<usize>)
        ensures
            match found {
                Some(at) => position_of(self@, key@) == Some(at as int) && at < self@.len(),
                None => position_of(self@, key@) is None,
            },
    {
        let wanted = String::from_str(key);
        let mut i: usize = 0;
        assert(self@.take(0).len() == 0);
        while i < self.entries.len()
            invariant
                i <= self.entries.len(),
                wanted@ == key@,
                position_of(self@.take(i as int), key@) is None,
            decreases self.entries.len() - i,
        {
            assert(self@.take(i + 1).drop_last() =~= self@.take(i as int));
            assert(self@.take(i + 1).last() == self@[i as int]);
            if self.entries[i].0 == wanted {
                proof {
                    lemma_position_of(self@, key@);
                    lemma_position_of(self@.take(i + 1), key@);
                    assert forall|j: int| 0 <= j < i implies self@[j].0 != key@ by {
                        assert(self@.take(i + 1)[j] == self@[j]);
                    }
                }
                return Some(i);
            }
            i += 1;
        }
        assert(self@.take(i as int) =~= self@);
        None
    }

    /// The value stored for `key`.
    pub fn get(&self, key: &str) -> (value: Option<&String>)
        ensures
            value.deep_view() == value_of(self@, key@),
    {
        match self.find(key) {
            Some(at) => Some(&self.entries[at].1),
            None => None,
        }
    }

    /// Stores `value` for `key`. An entry that is there keeps its place and
    /// gets the new value; a new one goes to the end.
    pub fn insert(&mut self, key: &str, value: &str)
        ensures
            final(self)@ == inserted(old(self)@, key@, value@),
    {
        proof {
            use_type_invariant(&*self);
            lemma_inserted(self@, key@, value@);
        }
        let entry = (String::from_str(key), String::from_str(value));
        let found = self.find(key);
        let mut entries: Vec<(String, String)> = Vec::new();
        assert(entries.deep_view() =~= Entries::empty());
        core::mem::swap(&mut self.entries, &mut entries);
        match found {
            Some(at) => {
                entries.set(at, entry);
                assert(entries.deep_view() =~= old(self)@.update(at as int, (key@, value@)));
            },
            None => {
                entries.push(entry);
                assert(entries.deep_view() =~= old(self)@.push((key@, value@)));
            },
        }
        core::mem::swap(&mut self.entries, &mut entries);
    }
}

} // verus!

//! A small map from strings to strings that keeps its entries in the order of their first
//! insertion, so that what is written out from it is the same on every run.

use vstd::prelude::*;

verus! {

/// The characters of a key and of its value.
pub type Pair = (Seq<char>, Seq<char>);

/// The position of the first entry with key `key`, or `entries.len()` where there is none.
pub open spec fn position(entries: Seq<Pair>, key: Seq<char>) -> int
    decreases entries.len(),
{
    if entries.len() == 0 || entries[0].0 == key {
        0
    } else {
        1 + position(entries.drop_first(), key)
    }
}

/// No key stands in two entries.
pub open spec fn keys_distinct(entries: Seq<Pair>) -> bool {
    forall|i: int, j: int|
        0 <= i < j < entries.len() ==> (#[trigger] entries[i]).0 != (#[trigger] entries[j]).0
}

/// `entries` after `key` has been given `value`: an entry that holds the key keeps its place
/// and takes the new value, a new key goes to the end.
pub open spec fn inserted(entries: Seq<Pair>, key: Seq<char>, value: Seq<char>) -> Seq<Pair> {
    let at = position(entries, key);
    if 0 <= at < entries.len() {
        entries.update(at, (key, value))
    } else {
        entries.push((key, value))
    }
}

/// The map that `entries` stand for.
pub open spec fn as_map(entries: Seq<Pair>) -> Map<Seq<char>, Seq<char>> {
    Map::new(
        |key: Seq<char>| 0 <= position(entries, key) < entries.len(),
        |key: Seq<char>| entries[position(entries, key)].1,
    )
}

/// `position` is within bounds, points at an entry with the key if there is one, and no
/// earlier entry has the key.
pub proof fn lemma_position(entries: Seq<Pair>, key: Seq<char>)
    ensures
        0 <= position(entries, key) <= entries.len(),
        position(entries, key) < entries.len() ==> entries[position(entries, key)].0 == key,
        forall|i: int| 0 <= i < position(entries, key) ==> (#[trigger] entries[i]).0 != key,
    decreases entries.len(),
{
    if entries.len() == 0 || entries[0].0 == key {
    } else {
        let rest = entries.drop_first();
        lemma_position(rest, key);
        assert forall|i: int| 0 <= i < position(entries, key) implies (#[trigger] entries[i]).0
            != key by {
            if i > 0 {
                assert(entries[i] == rest[i - 1]);
            }
        }
    }
}

/// The position of a key is `at` where no entry before `at` holds it and the one at `at`
/// does, or `at` is the length.
pub proof fn lemma_position_is(entries: Seq<Pair>, key: Seq<char>, at: int)
    requires
        0 <= at <= entries.len(),
        forall|i: int| 0 <= i < at ==> (#[trigger] entries[i]).0 != key,
        at < entries.len() ==> entries[at].0 == key,
    ensures
        position(entries, key) == at,
{
    lemma_position(entries, key);
    let p = position(entries, key);
    if p < at {
        assert(entries[p].0 != key);
    } else if at < p {
        assert(entries[at].0 != key);
    }
}

/// Giving a key a value keeps the keys distinct.
pub proof fn lemma_inserted_distinct(entries: Seq<Pair>, key: Seq<char>, value: Seq<char>)
    requires
        keys_distinct(entries),
    ensures
        keys_distinct(inserted(entries, key, value)),
{
    lemma_position(entries, key);
    let at = position(entries, key);
    let after = inserted(entries, key, value);
    assert forall|i: int, j: int| 0 <= i < j < after.len() implies (#[trigger] after[i]).0 != (
    #[trigger] after[j]).0 by {
        if at < entries.len() {
            assert(after[i].0 == entries[i].0);
            assert(after[j].0 == entries[j].0);
        } else if j == entries.len() {
            assert(after[i] == entries[i]);
        } else {
            assert(after[i] == entries[i]);
            assert(after[j] == entries[j]);
        }
    }
}

/// An ordered map from strings to strings.
pub struct StringMap {
    entries: Vec<(String, String)>,
}

impl View for StringMap {
    type V = Map<Seq<char>, Seq<char>>;

    open spec fn view(&self) -> Map<Seq<char>, Seq<char>> {
        as_map(self.entries())
    }
}

impl StringMap {
    /// No key stands in two entries of a map.
    #[verifier::type_invariant]
    pub closed spec fn well_formed(self) -> bool {
        keys_distinct(self.entries.deep_view())
    }

    /// The entries, in the order in which their keys were first inserted.
    pub closed spec fn entries(&self) -> Seq<Pair> {
        self.entries.deep_view()
    }

    /// A map without entries.
    pub fn new() -> (r: StringMap)
        ensures
            r.entries() == Seq::<Pair>::empty(),
    {
        let r = StringMap { entries: Vec::new() };
        assert(r.entries.deep_view() =~= Seq::<Pair>::empty());
        r
    }

    /// The number of entries.
    pub fn len(&self) -> (r: usize)
        ensures
            r == self.entries().len(),
    {
        self.entries.len()
    }

    /// The key of the entry at `index`.
    pub fn key_at(&self, index: usize) -> (r: &str)
        requires
            index < self.entries().len(),
        ensures
            r@ == self.entries()[index as int].0,
    {
        self.entries[index].0.as_str()
    }

    /// The value of the entry at `index`.
    pub fn value_at(&self, index: usize) -> (r: &str)
        requires
            index < self.entries().len(),
        ensures
            r@ == self.entries()[index as int].1,
    {
        self.entries[index].1.as_str()
    }

    /// Where the entry with key `key` stands, or the number of entries where no entry has it.
    pub fn find(&self, key: &str) -> (r: usize)
        ensures
            r == position(self.entries(), key@),
    {
        let n: usize = self.entries.len();
        let mut i: usize = 0;
        while i < n
            invariant
                n == self.entries.len(),
                i <= n,
                forall|j: int| 0 <= j < i ==> (#[trigger] self.entries()[j]).0 != key@,
            decreases n - i,
        {
            if crate::text::same(self.entries[i].0.as_str(), key) {
                proof {
                    lemma_position_is(self.entries(), key@, i as int);
                }
                return i;
            }
            i += 1;
        }
        proof {
            lemma_position_is(self.entries(), key@, n as int);
        }
        n
    }

    /// The value that `key` has, if it has one.
    pub fn get(&self, key: &str) -> (r: Option<&str>)
        ensures
            match r {
                Some(value) => self@.contains_key(key@) && value@ == self@[key@],
                None => !self@.contains_key(key@),
            },
    {
        let at = self.find(key);
        if at < self.entries.len() {
            Some(self.entries[at].1.as_str())
        } else {
            None
        }
    }

    /// Gives `key` the value `value`.
    pub fn insert(&mut self, key: String, value: String)
        ensures
            final(self).entries() == inserted(old(self).entries(), key@, value@),
            final(self)@ == old(self)@.insert(key@, value@),
    {
        proof {
            use_type_invariant(&*self);
            lemma_inserted_distinct(self.entries(), key@, value@);
            lemma_inserted_map(self.entries(), key@, value@);
        }
        let ghost before = self.entries();
        let at = self.find(key.as_str());
        let mut entries: Vec<(String, String)> = Vec::new();
        std::mem::swap(&mut entries, &mut self.entries);
        if at < entries.len() {
            entries.set(at, (key, value));
        } else {
            entries.push((key, value));
        }
        assert(entries.deep_view() =~= inserted(before, key@, value@));
        std::mem::swap(&mut entries, &mut self.entries);
    }
}

/// What giving `key` a value does to the entry found for a key `k`.
pub proof fn lemma_inserted_entry(entries: Seq<Pair>, key: Seq<char>, value: Seq<char>, k: Seq<char>)
    ensures
        ({
            let after = inserted(entries, key, value);
            let found = 0 <= position(after, k) < after.len();
            if k == key {
                found && after[position(after, k)].1 == value
            } else {
                &&& found == (0 <= position(entries, k) < entries.len())
                &&& found ==> after[position(after, k)].1 == entries[position(entries, k)].1
            }
        }),
{
    let after = inserted(entries, key, value);
    let at = position(entries, key);
    lemma_position(entries, key);
    lemma_position(entries, k);
    let p = position(entries, k);
    if k == key {
        assert forall|i: int| 0 <= i < at implies (#[trigger] after[i]).0 != k by {
            assert(entries[i].0 != k);
        }
        lemma_position_is(after, k, at);
    } else if p < entries.len() {
        assert forall|i: int| 0 <= i < p implies (#[trigger] after[i]).0 != k by {
            assert(entries[i].0 != k);
        }
        lemma_position_is(after, k, p);
    } else {
        assert forall|i: int| 0 <= i < after.len() implies (#[trigger] after[i]).0 != k by {
            if i < entries.len() {
                assert(entries[i].0 != k);
            }
        }
        lemma_position_is(after, k, after.len() as int);
    }
}

/// Giving a key a value changes the map that the entries stand for at that key alone.
pub proof fn lemma_inserted_map(entries: Seq<Pair>, key: Seq<char>, value: Seq<char>)
    ensures
        as_map(inserted(entries, key, value)) == as_map(entries).insert(key, value),
{
    let left = as_map(inserted(entries, key, value));
    let right = as_map(entries).insert(key, value);
    assert forall|k: Seq<char>| left.dom().contains(k) == right.dom().contains(k) by {
        lemma_inserted_entry(entries, key, value, k);
    }
    assert forall|k: Seq<char>| left.dom().contains(k) implies left[k] == right[k] by {
        lemma_inserted_entry(entries, key, value, k);
    }
    assert(left =~= right);
}

} // verus!

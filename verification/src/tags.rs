//! A small map from tag names to tag values.

use vstd::prelude::*;

verus! {

/// Whether the pair at position `i` has the key `key`.
pub open spec fn has_key_at(pairs: Seq<(String, String)>, key: Seq<char>, i: int) -> bool {
    0 <= i < pairs.len() && pairs[i].0@ == key
}

/// No key occurs in two pairs.
pub open spec fn distinct_keys(pairs: Seq<(String, String)>) -> bool {
    forall|i: int, j: int| 0 <= i < j < pairs.len() ==> pairs[i].0@ != pairs[j].0@
}

/// The map that a sequence of key-value pairs stands for.
pub open spec fn map_of(pairs: Seq<(String, String)>) -> Map<Seq<char>, Seq<char>> {
    Map::new(
        |key: Seq<char>| exists|i: int| has_key_at(pairs, key, i),
        |key: Seq<char>| pairs[choose|i: int| has_key_at(pairs, key, i)].1@,
    )
}

/// With distinct keys, each pair is an entry of the map.
pub proof fn pair_is_entry(pairs: Seq<(String, String)>, i: int)
    requires
        distinct_keys(pairs),
        0 <= i < pairs.len(),
    ensures
        map_of(pairs).contains_key(pairs[i].0@),
        map_of(pairs)[pairs[i].0@] == pairs[i].1@,
{
    let key = pairs[i].0@;
    assert(has_key_at(pairs, key, i));
    let c = choose|c: int| has_key_at(pairs, key, c);
    assert(c == i);
}

/// Appending a pair with a new key inserts it into the map.
pub proof fn push_is_insert(pairs: Seq<(String, String)>, pair: (String, String))
    requires
        distinct_keys(pairs),
        !map_of(pairs).contains_key(pair.0@),
    ensures
        distinct_keys(pairs.push(pair)),
        map_of(pairs.push(pair)) == map_of(pairs).insert(pair.0@, pair.1@),
{
    let grown = pairs.push(pair);
    assert forall|i: int, j: int| 0 <= i < j < grown.len() implies grown[i].0@ != grown[j].0@ by {
        if j == pairs.len() {
            assert(has_key_at(pairs, grown[i].0@, i));
        }
    }
    assert forall|key: Seq<char>| #[trigger]
        map_of(grown).contains_key(key) <==> map_of(pairs).insert(pair.0@, pair.1@).contains_key(
            key,
        ) by {
        if map_of(grown).contains_key(key) {
            let c = choose|c: int| has_key_at(grown, key, c);
            if c < pairs.len() {
                assert(has_key_at(pairs, key, c));
            }
        }
        if map_of(pairs).contains_key(key) {
            let c = choose|c: int| has_key_at(pairs, key, c);
            assert(has_key_at(grown, key, c));
        }
        if key == pair.0@ {
            assert(has_key_at(grown, key, pairs.len() as int));
        }
    }
    assert forall|key: Seq<char>| #[trigger] map_of(grown).contains_key(key) implies map_of(
        grown,
    )[key] == map_of(pairs).insert(pair.0@, pair.1@)[key] by {
        let c = choose|c: int| has_key_at(grown, key, c);
        pair_is_entry(grown, c);
        if c < pairs.len() {
            pair_is_entry(pairs, c);
        }
    }
    assert(map_of(grown) =~= map_of(pairs).insert(pair.0@, pair.1@));
}

/// Replacing the value of a pair replaces the value in the map.
pub proof fn update_is_insert(pairs: Seq<(String, String)>, i: int, pair: (String, String))
    requires
        distinct_keys(pairs),
        0 <= i < pairs.len(),
        pairs[i].0@ == pair.0@,
    ensures
        distinct_keys(pairs.update(i, pair)),
        map_of(pairs.update(i, pair)) == map_of(pairs).insert(pair.0@, pair.1@),
{
    let changed = pairs.update(i, pair);
    assert forall|a: int, b: int| 0 <= a < b < changed.len() implies changed[a].0@
        != changed[b].0@ by {
        assert(changed[a].0@ == pairs[a].0@);
        assert(changed[b].0@ == pairs[b].0@);
    }
    assert forall|key: Seq<char>| #[trigger]
        map_of(changed).contains_key(key) <==> map_of(pairs).insert(pair.0@, pair.1@).contains_key(
            key,
        ) by {
        if map_of(changed).contains_key(key) {
            let c = choose|c: int| has_key_at(changed, key, c);
            assert(has_key_at(pairs, key, c));
        }
        if map_of(pairs).contains_key(key) {
            let c = choose|c: int| has_key_at(pairs, key, c);
            assert(has_key_at(changed, key, c));
        }
        if key == pair.0@ {
            assert(has_key_at(changed, key, i));
        }
    }
    assert forall|key: Seq<char>| #[trigger] map_of(changed).contains_key(key) implies map_of(
        changed,
    )[key] == map_of(pairs).insert(pair.0@, pair.1@)[key] by {
        let c = choose|c: int| has_key_at(changed, key, c);
        pair_is_entry(changed, c);
        pair_is_entry(pairs, c);
    }
    assert(map_of(changed) =~= map_of(pairs).insert(pair.0@, pair.1@));
}

/// The map of the first `i + 1` pairs is that of the first `i` pairs with
/// the next pair inserted, and the next pair's key is new to it.
pub proof fn next_pair_is_insert(pairs: Seq<(String, String)>, i: int)
    requires
        distinct_keys(pairs),
        0 <= i < pairs.len(),
    ensures
        distinct_keys(pairs.take(i)),
        !map_of(pairs.take(i)).contains_key(pairs[i].0@),
        map_of(pairs.take(i + 1)) == map_of(pairs.take(i)).insert(pairs[i].0@, pairs[i].1@),
{
    let front = pairs.take(i);
    assert(pairs.take(i + 1) =~= front.push(pairs[i]));
    if map_of(front).contains_key(pairs[i].0@) {
        let c = choose|c: int| has_key_at(front, pairs[i].0@, c);
        assert(front[c] == pairs[c]);
    }
    push_is_insert(front, pairs[i]);
}

/// Tags of a span or fields of an event: a map from names to values, in
/// which a name has at most one value.
#[derive(Debug)]
pub struct Tags {
    entries: Vec<(String, String)>,
}

impl View for Tags {
    type V = Map<Seq<char>, Seq<char>>;

    open spec fn view(&self) -> Map<Seq<char>, Seq<char>> {
        map_of(self.pairs())
    }
}

impl Tags {
    /// The entries in the order in which their keys were first inserted.
    pub closed spec fn pairs(&self) -> Seq<(String, String)> {
        self.entries@
    }

    /// The invariant of the type: no key is held twice.
    pub open spec fn wf(&self) -> bool {
        distinct_keys(self.pairs())
    }

    /// An empty map.
    pub fn new() -> (tags: Tags)
        ensures
            tags.wf(),
            tags.pairs().len() == 0,
            tags@ == Map::<Seq<char>, Seq<char>>::empty(),
    {
        let tags = Tags { entries: Vec::new() };
        assert(tags@ =~= Map::<Seq<char>, Seq<char>>::empty());
        tags
    }

    /// Position of the entry with this key.
    fn position(&self, key: &String) -> (found: Option<usize>)
        requires
            self.wf(),
        ensures
            match found {
                Some(i) => has_key_at(self.pairs(), key@, i as int),
                None => !self@.contains_key(key@),
            },
    {
        let mut i: usize = 0;
        while i < self.entries.len()
            invariant
                i <= self.entries.len(),
                forall|j: int| 0 <= j < i ==> !has_key_at(self.pairs(), key@, j),
            decreases self.entries.len() - i,
        {
            if self.entries[i].0 == *key {
                return Some(i);
            }
            i += 1;
        }
        None
    }

    /// Binds `key` to `value`, replacing the value that the key had.
    pub fn insert(&mut self, key: String, value: String)
        requires
            old(self).wf(),
        ensures
            final(self).wf(),
            final(self)@ == old(self)@.insert(key@, value@),
    {
        match self.position(&key) {
            Some(i) => {
                proof {
                    update_is_insert(self.pairs(), i as int, (key, value));
                }
                self.entries.set(i, (key, value));
            },
            None => {
                proof {
                    push_is_insert(self.pairs(), (key, value));
                }
                self.entries.push((key, value));
            },
        }
    }

    /// The value bound to `key`, if there is one.
    pub fn get(&self, key: &String) -> (value: Option<&String>)
        requires
            self.wf(),
        ensures
            match value {
                Some(v) => self@.contains_key(key@) && self@[key@] == v@,
                None => !self@.contains_key(key@),
            },
    {
        match self.position(key) {
            Some(i) => {
                proof {
                    pair_is_entry(self.pairs(), i as int);
                }
                Some(&self.entries[i].1)
            },
            None => None,
        }
    }

    /// The entries, one pair for each key.
    pub fn entries(&self) -> (entries: &Vec<(String, String)>)
        ensures
            entries@ == self.pairs(),
    {
        &self.entries
    }
}

} // verus!

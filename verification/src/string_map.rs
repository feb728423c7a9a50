//! A small map keyed by text.

use vstd::prelude::*;

verus! {

/// A map from text to values, in which no key occurs twice.
#[derive(Debug, Eq, PartialEq)]
pub struct StringMap<V> {
    entries: Vec<(String, V)>,
}

impl<V> View for StringMap<V> {
    type V = Map<Seq<char>, V>;

    closed spec fn view(&self) -> Map<Seq<char>, V> {
        entries_map(self.entries@)
    }
}

/// The map that a list of entries amounts to, the last entry for a key winning.
pub open spec fn entries_map<V>(entries: Seq<(String, V)>) -> Map<Seq<char>, V>
    decreases entries.len(),
{
    if entries.len() == 0 {
        Map::empty()
    } else {
        entries_map(entries.drop_last()).insert(entries.last().0@, entries.last().1)
    }
}

spec fn has_key<V>(entries: Seq<(String, V)>, key: Seq<char>, index: int) -> bool {
    0 <= index < entries.len() && entries[index].0@ == key
}

/// No key occurs twice in `entries`.
pub open spec fn distinct_keys<V>(entries: Seq<(String, V)>) -> bool {
    forall|left: int, right: int|
        0 <= left < right < entries.len() ==> #[trigger] entries[left].0@ != #[trigger] entries[right].0@
}

/// A key is in the map exactly when some entry has it.
proof fn lemma_entries_domain<V>(entries: Seq<(String, V)>, key: Seq<char>)
    ensures
        entries_map(entries).contains_key(key) <==> exists|index: int| has_key(entries, key, index),
    decreases entries.len(),
{
    if entries.len() > 0 {
        let rest = entries.drop_last();
        lemma_entries_domain(rest, key);
        if entries.last().0@ == key {
            assert(has_key(entries, key, entries.len() - 1));
        }
        if exists|index: int| has_key(rest, key, index) {
            let index = choose|index: int| has_key(rest, key, index);
            assert(has_key(entries, key, index));
        }
        if exists|index: int| has_key(entries, key, index) {
            let index = choose|index: int| has_key(entries, key, index);
            if index < rest.len() {
                assert(has_key(rest, key, index));
            }
        }
    }
}

/// With distinct keys, an entry's value is the one the map holds for its key.
proof fn lemma_entry_value<V>(entries: Seq<(String, V)>, index: int)
    requires
        distinct_keys(entries),
        0 <= index < entries.len(),
    ensures
        entries_map(entries).contains_key(entries[index].0@),
        entries_map(entries)[entries[index].0@] == entries[index].1,
    decreases entries.len(),
{
    let rest = entries.drop_last();
    if index < rest.len() {
        assert(distinct_keys(rest)) by {
            assert forall|left: int, right: int| 0 <= left < right < rest.len() implies
                #[trigger] rest[left].0@ != #[trigger] rest[right].0@ by {
                assert(entries[left].0@ != entries[right].0@);
            }
        }
        lemma_entry_value(rest, index);
        assert(entries[index].0@ != entries[entries.len() - 1].0@);
        assert(rest[index] == entries[index]);
    }
}

/// Replacing the value of one entry changes the map at its key alone.
proof fn lemma_entry_update<V>(entries: Seq<(String, V)>, index: int, value: V)
    requires
        distinct_keys(entries),
        0 <= index < entries.len(),
    ensures
        distinct_keys(entries.update(index, (entries[index].0, value))),
        entries_map(entries.update(index, (entries[index].0, value))) == entries_map(entries).insert(
            entries[index].0@,
            value,
        ),
    decreases entries.len(),
{
    let updated = entries.update(index, (entries[index].0, value));
    assert(distinct_keys(updated)) by {
        assert forall|left: int, right: int| 0 <= left < right < updated.len() implies
            #[trigger] updated[left].0@ != #[trigger] updated[right].0@ by {
            assert(entries[left].0@ != entries[right].0@);
        }
    }
    let rest = entries.drop_last();
    if index < rest.len() {
        assert(distinct_keys(rest)) by {
            assert forall|left: int, right: int| 0 <= left < right < rest.len() implies
                #[trigger] rest[left].0@ != #[trigger] rest[right].0@ by {
                assert(entries[left].0@ != entries[right].0@);
            }
        }
        lemma_entry_update(rest, index, value);
        assert(updated.drop_last() == rest.update(index, (rest[index].0, value)));
        assert(entries[index].0@ != entries[entries.len() - 1].0@);
        assert(entries_map(updated) =~= entries_map(entries).insert(entries[index].0@, value));
    } else {
        assert(updated.drop_last() == rest);
        assert(entries_map(updated) =~= entries_map(entries).insert(entries[index].0@, value));
    }
}

impl<V> StringMap<V> {
    #[verifier::type_invariant]
    spec fn well_formed(self) -> bool {
        distinct_keys(self.entries@)
    }

    /// Returns an empty map.
    pub fn new() -> (map: Self)
        ensures
            map@ == Map::<Seq<char>, V>::empty(),
    {
        StringMap { entries: Vec::new() }
    }

    /// Returns where the entry for `key` is, if there is one.
    fn position(&self, key: &str) -> (position: Option<usize>)
        ensures
            match position {
                Some(index) => has_key(self.entries@, key@, index as int),
                None => forall|index: int| !has_key(self.entries@, key@, index),
            },
    {
        let wanted: String = key.to_owned();
        let mut index: usize = 0;
        while index < self.entries.len()
            invariant
                index <= self.entries.len(),
                wanted@ == key@,
                forall|earlier: int| 0 <= earlier < index ==> !has_key(self.entries@, key@, earlier),
            decreases self.entries.len() - index,
        {
            if self.entries[index].0 == wanted {
                return Some(index);
            }
            index += 1;
        }
        None
    }

    /// Returns the value for `key`.
    pub fn get(&self, key: &str) -> (value: Option<&V>)
        ensures
            value is Some <==> self@.contains_key(key@),
            value matches Some(found) ==> *found == self@[key@],
    {
        proof {
            use_type_invariant(self);
            lemma_entries_domain(self.entries@, key@);
        }
        match self.position(key) {
            Some(index) => {
                proof {
                    lemma_entry_value(self.entries@, index as int);
                }
                Some(&self.entries[index].1)
            },
            None => None,
        }
    }

    /// Sets the value for `key`, returning whether it had one already.
    pub fn insert(&mut self, key: String, value: V) -> (occupied: bool)
        ensures
            final(self)@ == old(self)@.insert(key@, value),
            occupied == old(self)@.contains_key(key@),
    {
        proof {
            use_type_invariant(&*self);
            lemma_entries_domain(self.entries@, key@);
        }
        let position = self.position(key.as_str());
        let mut entries: Vec<(String, V)> = Vec::new();
        std::mem::swap(&mut entries, &mut self.entries);
        match position {
            Some(index) => {
                proof {
                    lemma_entry_update(entries@, index as int, value);
                }
                entries[index].1 = value;
                self.entries = entries;
                true
            },
            None => {
                let ghost before = entries@;
                entries.push((key, value));
                proof {
                    assert(entries@.drop_last() == before);
                    assert forall|left: int, right: int| 0 <= left < right < entries@.len() implies
                        #[trigger] entries@[left].0@ != #[trigger] entries@[right].0@ by {
                        if right == before.len() {
                            assert(!has_key(before, key@, left));
                        } else {
                            assert(before[left].0@ != before[right].0@);
                        }
                    }
                }
                self.entries = entries;
                false
            },
        }
    }

    /// Returns the number of keys.
    pub fn len(&self) -> (length: usize)
        ensures
            length == self@.dom().len(),
            self@.dom().finite(),
    {
        proof {
            use_type_invariant(self);
            lemma_entries_count(self.entries@);
        }
        self.entries.len()
    }

    /// Returns the entries, each key once.
    pub fn entries(&self) -> (entries: &Vec<(String, V)>)
        ensures
            distinct_keys(entries@),
            entries_map(entries@) == self@,
    {
        proof {
            use_type_invariant(self);
        }
        &self.entries
    }

    /// Builds a map from entries, the last one for a key winning.
    pub fn from_entries(entries: Vec<(String, V)>) -> (map: Self)
        ensures
            map@ == entries_map(entries@),
    {
        let mut map = StringMap::new();
        let ghost all = entries@;
        let mut remaining: Vec<(String, V)> = entries;
        assert(entries_map(all) =~= entries_map(all).union_prefer_right(map@));
        while remaining.len() > 0
            invariant
                    entries_map(all) == entries_map(remaining@).union_prefer_right(map@),
            decreases remaining.len(),
        {
            let ghost before = remaining@;
            let ghost held = map@;
            if let Some((key, value)) = remaining.pop() {
                assert(before.drop_last() == remaining@);
                if map.get(key.as_str()).is_none() {
                    map.insert(key, value);
                }
                assert(entries_map(all) =~= entries_map(remaining@).union_prefer_right(map@));
            }
        }
        assert(entries_map(all) =~= map@);
        map
    }
}

/// With distinct keys, the map has as many keys as there are entries.
proof fn lemma_entries_count<V>(entries: Seq<(String, V)>)
    requires
        distinct_keys(entries),
    ensures
        entries_map(entries).dom().finite(),
        entries_map(entries).dom().len() == entries.len(),
    decreases entries.len(),
{
    if entries.len() > 0 {
        let rest = entries.drop_last();
        assert(distinct_keys(rest)) by {
            assert forall|left: int, right: int| 0 <= left < right < rest.len() implies
                #[trigger] rest[left].0@ != #[trigger] rest[right].0@ by {
                assert(entries[left].0@ != entries[right].0@);
            }
        }
        lemma_entries_count(rest);
        lemma_entries_domain(rest, entries.last().0@);
        assert forall|index: int| !has_key(rest, entries.last().0@, index) by {
            if has_key(rest, entries.last().0@, index) {
                assert(entries[index].0@ != entries[entries.len() - 1].0@);
            }
        }
        assert(entries_map(entries).dom() =~= entries_map(rest).dom().insert(entries.last().0@));
    } else {
        assert(entries_map(entries).dom() =~= Set::empty());
    }
}

impl StringMap<String> {
    /// Sets every entry of `other` here as well, replacing values already set.
    pub fn extend(&mut self, other: &StringMap<String>)
        ensures
            final(self)@ == old(self)@.union_prefer_right(other@),
    {
        let ghost start = self@;
        let mut index: usize = 0;
        assert(start =~= start.union_prefer_right(entries_map(other.entries@.subrange(0, 0))));
        while index < other.entries.len()
            invariant
                index <= other.entries.len(),
                self@ == start.union_prefer_right(entries_map(other.entries@.subrange(0, index as int))),
            decreases other.entries.len() - index,
        {
            let key: String = other.entries[index].0.clone();
            let value: String = other.entries[index].1.clone();
            proof {
                let next = other.entries@.subrange(0, index + 1);
                assert(next.drop_last() =~= other.entries@.subrange(0, index as int));
                assert(start.union_prefer_right(entries_map(next)) =~= self@.insert(key@, value));
            }
            self.insert(key, value);
            index += 1;
        }
        assert(other.entries@.subrange(0, index as int) =~= other.entries@);
    }

    /// Returns a map with the same keys and values.
    pub fn duplicate(&self) -> (copy: StringMap<String>)
        ensures
            copy@ == self@,
    {
        let mut copy: StringMap<String> = StringMap::new();
        copy.extend(self);
        assert(copy@ =~= self@);
        copy
    }
}

/// A map built from entries holds, for each key, the value of the last entry that
/// has it, and no other keys.
pub proof fn law_the_last_entry_wins<V>(entries: Seq<(String, V)>, key: Seq<char>)
    ensures
        entries_map(entries).contains_key(key) <==> exists|index: int|
            0 <= index < entries.len() && (#[trigger] entries[index]).0@ == key,
        forall|index: int|
            0 <= index < entries.len() && (#[trigger] entries[index]).0@ == key && (forall|
                later: int,
            |
                index < later < entries.len() ==> (#[trigger] entries[later]).0@ != key)
                ==> entries_map(entries)[key] == entries[index].1,
    decreases entries.len(),
{
    if entries.len() > 0 {
        let rest = entries.drop_last();
        law_the_last_entry_wins(rest, key);
        assert forall|index: int|
            0 <= index < entries.len() && (#[trigger] entries[index]).0@ == key && (forall|
                later: int,
            |
                index < later < entries.len() ==> (#[trigger] entries[later]).0@
                    != key) implies entries_map(entries)[key] == entries[index].1 by {
            if index < rest.len() {
                assert(entries[entries.len() - 1].0@ != key);
                assert(rest[index] == entries[index]);
                assert forall|later: int| index < later < rest.len() implies (
                #[trigger] rest[later]).0@ != key by {
                    assert(rest[later] == entries[later]);
                }
            }
        }
        if entries_map(entries).contains_key(key) {
            if entries.last().0@ == key {
                assert(entries[entries.len() - 1].0@ == key);
            } else {
                let index = choose|index: int|
                    0 <= index < rest.len() && (#[trigger] rest[index]).0@ == key;
                assert(entries[index].0@ == key);
            }
        }
        if exists|index: int| 0 <= index < entries.len() && (#[trigger] entries[index]).0@ == key {
            let index = choose|index: int|
                0 <= index < entries.len() && (#[trigger] entries[index]).0@ == key;
            if index < rest.len() {
                assert(rest[index].0@ == key);
            }
        }
    }
}

} // verus!

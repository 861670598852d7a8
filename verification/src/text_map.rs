//! A map from text to values, kept as a list of entries.
use vstd::prelude::*;

verus! {

/// The map that a list of entries stands for: of two entries for one key the later counts.
pub open spec fn entries_map<V>(entries: Seq<(String, V)>) -> Map<Seq<char>, V>
    decreases entries.len(),
{
    if entries.len() == 0 {
        Map::empty()
    } else {
        entries_map(entries.drop_last()).insert(entries.last().0@, entries.last().1)
    }
}

/// A map whose keys are text.
pub struct TextMap<V> {
    entries: Vec<(String, V)>,
}

impl<V> View for TextMap<V> {
    type V = Map<Seq<char>, V>;

    closed spec fn view(&self) -> Map<Seq<char>, V> {
        entries_map(self.entries@)
    }
}

/// An entry list without a key's entries stands for the map without the key.
proof fn lemma_entries_step<V>(entries: Seq<(String, V)>, i: int)
    requires
        0 <= i < entries.len(),
    ensures
        entries_map(entries.take(i + 1)) == entries_map(entries.take(i)).insert(
            entries[i].0@,
            entries[i].1,
        ),
{
    assert(entries.take(i + 1).drop_last() =~= entries.take(i));
}

impl<V> TextMap<V> {
    pub fn new() -> (result: Self)
        ensures
            result@ == Map::<Seq<char>, V>::empty(),
    {
        TextMap { entries: Vec::new() }
    }

    /// The value under `key`.
    pub fn get(&self, key: &str) -> (result: Option<&V>)
        ensures
            match result {
                Some(value) => self@.dom().contains(key@) && self@[key@] == *value,
                None => !self@.dom().contains(key@),
            },
    {
        let wanted = key.to_owned();
        let mut i: usize = self.entries.len();
        assert(self.entries@.take(i as int) =~= self.entries@);
        while i > 0
            invariant
                i <= self.entries@.len(),
                wanted@ == key@,
                self@.dom().contains(key@) == entries_map(
                    self.entries@.take(i as int),
                ).dom().contains(key@),
                self@.dom().contains(key@) ==> self@[key@] == entries_map(
                    self.entries@.take(i as int),
                )[key@],
            decreases i,
        {
            proof {
                lemma_entries_step(self.entries@, i - 1);
            }
            i -= 1;
            if self.entries[i].0 == wanted {
                return Some(&self.entries[i].1);
            }
        }
        None
    }

    /// Whether there is a value under `key`.
    pub fn contains(&self, key: &str) -> (result: bool)
        ensures
            result == self@.dom().contains(key@),
    {
        self.get(key).is_some()
    }

    /// Removes the value under `key`.
    pub fn remove(&mut self, key: &str)
        ensures
            final(self)@ == old(self)@.remove(key@),
    {
        let wanted = key.to_owned();
        let ghost before = self.entries@;
        let mut kept: Vec<(String, V)> = Vec::new();
        let mut rest: Vec<(String, V)> = Vec::new();
        rest.append(&mut self.entries);
        let ghost mut done: int = 0;
        assert(before.take(0) =~= Seq::empty());
        assert(entries_map(before.take(0)).remove(key@) =~= Map::empty());
        rest = reversed(rest);
        while rest.len() > 0
            invariant
                0 <= done <= before.len(),
                wanted@ == key@,
                rest@.len() == before.len() - done,
                forall|j: int| 0 <= j < rest@.len() ==> rest@[j] == before[before.len() - 1 - j],
                entries_map(kept@) == entries_map(before.take(done)).remove(key@),
            decreases rest@.len(),
        {
            proof {
                lemma_entries_step(before, done);
            }
            match rest.pop() {
                Some(entry) => {
                    let ghost earlier = kept@;
                    assert(entry == before[done]);
                    if entry.0 == wanted {
                        assert(entries_map(before.take(done + 1)).remove(key@) =~= entries_map(
                            before.take(done),
                        ).remove(key@));
                    } else {
                        kept.push(entry);
                        assert(kept@.drop_last() =~= earlier);
                        assert(entries_map(before.take(done + 1)).remove(key@) =~= entries_map(
                            before.take(done),
                        ).remove(key@).insert(entry.0@, entry.1));
                    }
                },
                None => {},
            }
            proof {
                done = done + 1;
            }
        }
        assert(before.take(done) =~= before);
        self.entries = kept;
    }

    /// Puts `value` under `key`.
    pub fn insert(&mut self, key: String, value: V)
        ensures
            final(self)@ == old(self)@.insert(key@, value),
    {
        self.remove(key.as_str());
        let ghost before = self.entries@;
        self.entries.push((key, value));
        assert(self.entries@.drop_last() =~= before);
        assert(self@ =~= old(self)@.insert(key@, value));
    }

    /// Removes every entry.
    pub fn clear(&mut self)
        ensures
            final(self)@ == Map::<Seq<char>, V>::empty(),
    {
        self.entries.clear();
    }
}

/// A list in reverse order.
pub fn reversed<T>(list: Vec<T>) -> (result: Vec<T>)
    ensures
        result@ == list@.reverse(),
{
    let mut rest = list;
    let mut result: Vec<T> = Vec::new();
    while rest.len() > 0
        invariant
            rest@.len() + result@.len() == list@.len(),
            rest@ == list@.take(rest@.len() as int),
            forall|j: int| 0 <= j < result@.len() ==> result@[j] == list@[list@.len() - 1 - j],
        decreases rest@.len(),
    {
        match rest.pop() {
            Some(item) => {
                result.push(item);
            },
            None => {},
        }
    }
    assert(result@ =~= list@.reverse());
    result
}

} // verus!

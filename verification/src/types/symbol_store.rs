//! The symbol environment: a mapping from identifiers to values.

use vstd::prelude::*;
use crate::types::primitive_value::PrimitiveValue;
use crate::types::primitive_value::ValueView;

verus! {

pub type Identifier = String;

/// A mapping from identifiers to values. Binding an identifier again
/// overwrites its value; the order of insertion is not observable.
#[derive(Debug)]
pub struct SymbolStore {
    entries: Vec<(String, PrimitiveValue)>,
}

/// The mapping that a list of bindings stands for: a later binding of an
/// identifier overrides an earlier one.
pub open spec fn entries_map(entries: Seq<(String, PrimitiveValue)>) -> Map<Seq<char>, ValueView>
    decreases entries.len(),
{
    if entries.len() == 0 {
        Map::empty()
    } else {
        entries_map(entries.drop_last()).insert(entries.last().0@, entries.last().1@)
    }
}

/// The binding at `i` decides the value of its identifier when no later
/// binding names the same identifier.
proof fn lemma_last_binding_wins(entries: Seq<(String, PrimitiveValue)>, key: Seq<char>, i: int)
    requires
        0 <= i < entries.len(),
        entries[i].0@ == key,
        forall|j: int| i < j < entries.len() ==> entries[j].0@ != key,
    ensures
        entries_map(entries).contains_key(key),
        entries_map(entries)[key] == entries[i].1@,
    decreases entries.len(),
{
    if i < entries.len() - 1 {
        lemma_last_binding_wins(entries.drop_last(), key, i);
    }
}

/// An identifier that no binding names is not in the mapping.
proof fn lemma_unbound(entries: Seq<(String, PrimitiveValue)>, key: Seq<char>)
    requires
        forall|j: int| 0 <= j < entries.len() ==> entries[j].0@ != key,
    ensures
        !entries_map(entries).contains_key(key),
    decreases entries.len(),
{
    if entries.len() > 0 {
        lemma_unbound(entries.drop_last(), key);
    }
}

/// Replacing the last binding of an identifier rebinds it in the mapping.
proof fn lemma_rebind(
    entries: Seq<(String, PrimitiveValue)>,
    i: int,
    binding: (String, PrimitiveValue),
)
    requires
        0 <= i < entries.len(),
        entries[i].0@ == binding.0@,
        forall|j: int| i < j < entries.len() ==> entries[j].0@ != binding.0@,
    ensures
        entries_map(entries.update(i, binding)) == entries_map(entries).insert(
            binding.0@,
            binding.1@,
        ),
    decreases entries.len(),
{
    let updated = entries.update(i, binding);
    if i == entries.len() - 1 {
        assert(updated.drop_last() =~= entries.drop_last());
        assert(entries_map(updated) =~= entries_map(entries).insert(binding.0@, binding.1@));
    } else {
        lemma_rebind(entries.drop_last(), i, binding);
        assert(updated.drop_last() =~= entries.drop_last().update(i, binding));
        assert(entries_map(updated) =~= entries_map(entries).insert(binding.0@, binding.1@));
    }
}

impl View for SymbolStore {
    type V = Map<Seq<char>, ValueView>;

    closed spec fn view(&self) -> Map<Seq<char>, ValueView> {
        entries_map(self.entries@)
    }
}

impl SymbolStore {
    /// An empty environment.
    pub fn new() -> (store: SymbolStore)
        ensures
            store@ == Map::<Seq<char>, ValueView>::empty(),
    {
        SymbolStore { entries: Vec::new() }
    }

    /// The index of the last binding of `key`, if there is one.
    fn position(&self, key: &String) -> (found: Option<usize>)
        ensures
            match found {
                Some(i) => i < self.entries.len() && self.entries[i as int].0@ == key@ && (forall|
                    j: int,
                |
                    i < j < self.entries.len() ==> self.entries[j].0@ != key@),
                None => forall|j: int| 0 <= j < self.entries.len() ==> self.entries[j].0@ != key@,
            },
    {
        let mut i: usize = self.entries.len();
        while i > 0
            invariant
                i <= self.entries.len(),
                forall|j: int| i <= j < self.entries.len() ==> self.entries[j].0@ != key@,
            decreases i,
        {
            i -= 1;
            if self.entries[i].0 == *key {
                return Some(i);
            }
        }
        None
    }

    /// Whether `key` is bound.
    pub fn contains_key(&self, key: &String) -> (bound: bool)
        ensures
            bound == self@.contains_key(key@),
    {
        match self.position(key) {
            Some(i) => {
                proof {
                    lemma_last_binding_wins(self.entries@, key@, i as int);
                }
                true
            },
            None => {
                proof {
                    lemma_unbound(self.entries@, key@);
                }
                false
            },
        }
    }

    /// The value bound to `key`, if it is bound.
    pub fn get(&self, key: &String) -> (value: Option<&PrimitiveValue>)
        ensures
            match value {
                Some(value) => self@.contains_key(key@) && value@ == self@[key@],
                None => !self@.contains_key(key@),
            },
    {
        match self.position(key) {
            Some(i) => {
                proof {
                    lemma_last_binding_wins(self.entries@, key@, i as int);
                }
                Some(&self.entries[i].1)
            },
            None => {
                proof {
                    lemma_unbound(self.entries@, key@);
                }
                None
            },
        }
    }

    /// Binds `key` to `value`, overwriting an earlier binding of `key`.
    pub fn insert(&mut self, key: String, value: PrimitiveValue)
        ensures
            final(self)@ == old(self)@.insert(key@, value@),
    {
        match self.position(&key) {
            Some(i) => {
                proof {
                    lemma_rebind(self.entries@, i as int, (key, value));
                }
                self.entries.set(i, (key, value));
            },
            None => {
                self.entries.push((key, value));
                assert(self.entries@.drop_last() =~= old(self).entries@);
            },
        }
    }

}

impl Clone for SymbolStore {
    fn clone(&self) -> (copy: SymbolStore)
        ensures
            copy@ == self@,
    {
        let mut entries: Vec<(String, PrimitiveValue)> = Vec::new();
        let mut i: usize = 0;
        while i < self.entries.len()
            invariant
                i <= self.entries.len(),
                entries.len() == i,
                entries_map(entries@) == entries_map(self.entries@.take(i as int)),
            decreases self.entries.len() - i,
        {
            let ghost before = entries@;
            entries.push((self.entries[i].0.clone(), self.entries[i].1.clone()));
            i += 1;
            assert(entries@.drop_last() =~= before);
            assert(self.entries@.take(i as int).drop_last() =~= self.entries@.take(i - 1));
        }
        assert(self.entries@.take(i as int) =~= self.entries@);
        SymbolStore { entries }
    }
}

/// An empty environment.
pub fn create_symbol_store() -> (store: SymbolStore)
    ensures
        store@ == Map::<Seq<char>, ValueView>::empty(),
{
    SymbolStore::new()
}

} // verus!

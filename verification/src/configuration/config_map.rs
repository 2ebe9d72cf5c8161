//! The configuration map that dprint hands to a plugin: property names with
//! their values, in the order in which they were written.

use vstd::prelude::*;
use crate::text::text_equals;

verus! {

/// A configuration value.
#[derive(Debug, PartialEq, Eq)]
pub enum ConfigKeyValue {
    String(String),
    Number(i32),
    Bool(bool),
    Array(Vec<ConfigKeyValue>),
    Object(ConfigKeyMap),
    Null,
}

/// Property names and their values, in insertion order; no name occurs twice.
#[derive(Debug, PartialEq, Eq)]
pub struct ConfigKeyMap {
    entries: Vec<(String, ConfigKeyValue)>,
}

/// The entries of a map, the name of each taken by its characters.
pub type ConfigEntries = Seq<(Seq<char>, ConfigKeyValue)>;

/// No two entries have the same name.
pub open spec fn names_unique(entries: ConfigEntries) -> bool {
    forall|i: int, j: int| 0 <= i < j < entries.len() ==> entries[i].0 != entries[j].0
}

/// `i` is the position of the first entry named `name`.
pub open spec fn is_first_position(entries: ConfigEntries, name: Seq<char>, i: int) -> bool {
    &&& 0 <= i < entries.len()
    &&& entries[i].0 == name
    &&& forall|j: int| 0 <= j < i ==> entries[j].0 != name
}

/// The position of the first entry named `name`, or -1 when there is none.
pub open spec fn position(entries: ConfigEntries, name: Seq<char>) -> int {
    if exists|i: int| is_first_position(entries, name, i) {
        choose|i: int| is_first_position(entries, name, i)
    } else {
        -1
    }
}

/// The value stored under `name`, if any.
pub open spec fn lookup(entries: ConfigEntries, name: Seq<char>) -> Option<ConfigKeyValue> {
    let i = position(entries, name);
    if i >= 0 {
        Some(entries[i].1)
    } else {
        None
    }
}

/// The position of a name is the first entry with that name, or -1 when no
/// entry has it.
pub proof fn lemma_position(entries: ConfigEntries, name: Seq<char>)
    ensures
        position(entries, name) == -1 <==> forall|j: int|
            0 <= j < entries.len() ==> entries[j].0 != name,
        position(entries, name) != -1 ==> is_first_position(entries, name, position(entries, name)),
{
    if exists|i: int| is_first_position(entries, name, i) {
        let i = choose|i: int| is_first_position(entries, name, i);
        assert(entries[i].0 == name);
    } else {
        assert forall|j: int| 0 <= j < entries.len() implies entries[j].0 != name by {
            if entries[j].0 == name {
                lemma_first_match_exists(entries, name, j);
            }
        }
    }
}

proof fn lemma_first_match_exists(entries: ConfigEntries, name: Seq<char>, j: int)
    requires
        0 <= j < entries.len(),
        entries[j].0 == name,
    ensures
        exists|i: int| is_first_position(entries, name, i),
    decreases j,
{
    if forall|k: int| 0 <= k < j ==> entries[k].0 != name {
        assert(is_first_position(entries, name, j));
    } else {
        let k = choose|k: int| 0 <= k < j && entries[k].0 == name;
        lemma_first_match_exists(entries, name, k);
    }
}

impl View for ConfigKeyMap {
    type V = ConfigEntries;

    closed spec fn view(&self) -> ConfigEntries {
        self.entries@.map_values(|e: (String, ConfigKeyValue)| (e.0@, e.1))
    }
}

impl ConfigKeyMap {
    #[verifier::type_invariant]
    spec fn well_formed(self) -> bool {
        names_unique(self@)
    }

    /// An empty map.
    pub fn new() -> (map: ConfigKeyMap)
        ensures
            map@ == Seq::<(Seq<char>, ConfigKeyValue)>::empty(),
            names_unique(map@),
    {
        let map = ConfigKeyMap { entries: Vec::new() };
        assert(map@ =~= Seq::<(Seq<char>, ConfigKeyValue)>::empty());
        map
    }

    /// The number of entries.
    pub fn len(&self) -> (n: usize)
        ensures
            n == self@.len(),
    {
        self.entries.len()
    }

    /// The position of the entry named `name`, if there is one.
    fn find(&self, name: &str) -> (found: Option<usize>)
        ensures
            match found {
                Some(i) => position(self@, name@) == i,
                None => position(self@, name@) == -1,
            },
    {
        let mut i: usize = 0;
        while i < self.entries.len()
            invariant
                0 <= i <= self.entries.len(),
                self@.len() == self.entries@.len(),
                forall|j: int| 0 <= j < i ==> self@[j].0 != name@,
            decreases self.entries.len() - i,
        {
            if text_equals(self.entries[i].0.as_str(), name) {
                proof {
                    lemma_position(self@, name@);
                    assert(is_first_position(self@, name@, i as int));
                }
                return Some(i);
            }
            i = i + 1;
        }
        proof {
            lemma_position(self@, name@);
        }
        None
    }

    /// The value stored under `name`, if any.
    pub fn get(&self, name: &str) -> (value: Option<&ConfigKeyValue>)
        ensures
            match value {
                Some(v) => lookup(self@, name@) == Some(*v),
                None => lookup(self@, name@) is None,
            },
    {
        match self.find(name) {
            Some(i) => Some(&self.entries[i].1),
            None => None,
        }
    }

    /// Stores `value` under `name`. An entry that already has the name keeps its
    /// place and takes the new value, and the value it held is returned;
    /// otherwise the entry is added at the end.
    pub fn insert(&mut self, name: String, value: ConfigKeyValue) -> (previous: Option<
        ConfigKeyValue,
    >)
        ensures
            previous == lookup(old(self)@, name@),
            names_unique(final(self)@),
            match lookup(old(self)@, name@) {
                Some(_) => final(self)@ == old(self)@.update(
                    position(old(self)@, name@),
                    (name@, value),
                ),
                None => final(self)@ == old(self)@.push((name@, value)),
            },
    {
        proof {
            use_type_invariant(&*self);
            lemma_position(self@, name@);
        }
        match self.find(name.as_str()) {
            Some(i) => {
                let mut entries = Vec::new();
                std::mem::swap(&mut entries, &mut self.entries);
                let ghost before = entries@;
                let previous = entries.remove(i);
                entries.insert(i, (name, value));
                let ghost after = entries@;
                proof {
                    let old_view = before.map_values(|e: (String, ConfigKeyValue)| (e.0@, e.1));
                    let new_view = after.map_values(|e: (String, ConfigKeyValue)| (e.0@, e.1));
                    assert(after =~= before.update(i as int, (name, value)));
                    assert(new_view =~= old_view.update(i as int, (name@, value)));
                    assert forall|a: int, b: int| 0 <= a < b < new_view.len() implies new_view[a].0
                        != new_view[b].0 by {
                        if a != i && b != i {
                            assert(old_view[a].0 != old_view[b].0);
                        } else if a == i {
                            assert(old_view[b].0 != name@);
                        } else {
                            assert(old_view[a].0 != name@);
                        }
                    }
                }
                self.entries = entries;
                Some(previous.1)
            },
            None => {
                let mut entries = Vec::new();
                std::mem::swap(&mut entries, &mut self.entries);
                let ghost before = entries@;
                entries.push((name, value));
                proof {
                    let old_view = before.map_values(|e: (String, ConfigKeyValue)| (e.0@, e.1));
                    let new_view = entries@.map_values(|e: (String, ConfigKeyValue)| (e.0@, e.1));
                    assert(new_view =~= old_view.push((name@, value)));
                    assert forall|a: int, b: int| 0 <= a < b < new_view.len() implies new_view[a].0
                        != new_view[b].0 by {
                        if b == old_view.len() {
                            assert(old_view[a].0 != name@);
                        } else {
                            assert(old_view[a].0 != old_view[b].0);
                        }
                    }
                }
                self.entries = entries;
                None
            },
        }
    }

    /// The names of the entries, in order.
    pub fn names(&self) -> (names: Vec<String>)
        ensures
            names@.len() == self@.len(),
            forall|i: int| 0 <= i < self@.len() ==> #[trigger] names@[i]@ == self@[i].0,
    {
        let mut names: Vec<String> = Vec::new();
        let mut i: usize = 0;
        while i < self.entries.len()
            invariant
                0 <= i <= self.entries.len(),
                self@.len() == self.entries@.len(),
                names@.len() == i,
                forall|j: int| 0 <= j < i ==> #[trigger] names@[j]@ == self@[j].0,
            decreases self.entries.len() - i,
        {
            names.push(self.entries[i].0.clone());
            i = i + 1;
        }
        names
    }
}

} // verus!

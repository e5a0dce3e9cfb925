//! A map from names to values that keeps the order in which names came in.

use vstd::prelude::*;

verus! {

/// A map keyed by text. No name occurs twice; names keep the order in which
/// they were first inserted.
#[derive(Debug)]
pub struct Table<V> {
    names: Vec<String>,
    values: Vec<V>,
}

/// The place of `name` among `names`, if it is there.
pub open spec fn place_of(names: Seq<String>, name: Seq<char>) -> Option<int> {
    if exists|i: int| 0 <= i < names.len() && #[trigger] names[i]@ == name {
        Some(choose|i: int| 0 <= i < names.len() && #[trigger] names[i]@ == name)
    } else {
        None
    }
}

/// Whether no two of `names` are the same text.
pub open spec fn distinct(names: Seq<String>) -> bool {
    forall|i: int, j: int|
        0 <= i < names.len() && 0 <= j < names.len() && #[trigger] names[i]@ == #[trigger] names[j]@
            ==> i == j
}

impl<V> Table<V> {
    /// Names and values pair up, and no name occurs twice. Every table that
    /// this module hands out is well formed, and its functions keep it so.
    pub closed spec fn wf(self) -> bool {
        &&& self.names@.len() == self.values@.len()
        &&& distinct(self.names@)
    }

    /// What being well formed means, over the names and the values.
    pub proof fn lemma_wf(self)
        requires
            self.wf(),
        ensures
            self.names().len() == self.values().len(),
            distinct(self.names()),
    {
    }

    /// The names, in the order in which they came in.
    pub closed spec fn names(self) -> Seq<String> {
        self.names@
    }

    /// The values, each at the place of its name.
    pub closed spec fn values(self) -> Seq<V> {
        self.values@
    }

    /// The map that this table stands for.
    pub open spec fn view(self) -> Map<Seq<char>, V> {
        Map::new(
            |name: Seq<char>| place_of(self.names(), name) is Some,
            |name: Seq<char>| self.values()[place_of(self.names(), name)->0],
        )
    }

    /// An empty table.
    pub fn new() -> (table: Table<V>)
        ensures
            table.wf(),
            table@ == Map::<Seq<char>, V>::empty(),
            table.names().len() == 0,
    {
        let table = Table { names: Vec::new(), values: Vec::new() };
        assert(table@ =~= Map::<Seq<char>, V>::empty());
        table
    }

    /// How many names the table holds. Names and values pair up, and no
    /// name occurs twice.
    pub fn len(&self) -> (n: usize)
        requires
            self.wf(),
        ensures
            n == self.names().len(),
            n == self.values().len(),
            distinct(self.names()),
    {
        self.names.len()
    }

    /// The place of `name`, if the table holds it.
    pub fn find(&self, name: &str) -> (place: Option<usize>)
        requires
            self.wf(),
        ensures
            match place {
                Some(i) => i < self.names().len() && self.names()[i as int]@ == name@
                    && place_of(self.names(), name@) == Some(i as int),
                None => place_of(self.names(), name@) is None,
            },
            place is Some <==> self@.contains_key(name@),
    {
        let wanted = name.to_string();
        let mut i: usize = 0;
        while i < self.names.len()
            invariant
                self.wf(),
                i <= self.names@.len(),
                wanted@ == name@,
                forall|j: int| 0 <= j < i ==> #[trigger] self.names@[j]@ != name@,
            decreases self.names@.len() - i,
        {
            if self.names[i] == wanted {
                return Some(i);
            }
            i += 1;
        }
        None
    }

    /// Whether the table holds `name`.
    pub fn contains_key(&self, name: &str) -> (found: bool)
        requires
            self.wf(),
        ensures
            found == self@.contains_key(name@),
    {
        self.find(name).is_some()
    }

    /// The value under `name`.
    pub fn get(&self, name: &str) -> (value: Option<&V>)
        requires
            self.wf(),
        ensures
            match value {
                Some(v) => self@.contains_key(name@) && *v == self@[name@],
                None => !self@.contains_key(name@),
            },
    {
        match self.find(name) {
            Some(i) => Some(&self.values[i]),
            None => None,
        }
    }

    /// The name at place `i`.
    pub fn name_at(&self, i: usize) -> (name: &String)
        requires
            self.wf(),
            i < self.names().len(),
        ensures
            *name == self.names()[i as int],
            self@.contains_key(name@),
    {
        &self.names[i]
    }

    /// The value at place `i`.
    pub fn value_at(&self, i: usize) -> (value: &V)
        requires
            self.wf(),
            i < self.names().len(),
        ensures
            *value == self.values()[i as int],
            self@.contains_key(self.names()[i as int]@),
            *value == self@[self.names()[i as int]@],
    {
        &self.values[i]
    }

    /// The value under `name`, to change it.
    pub fn get_mut(&mut self, name: &str) -> (value: Option<&mut V>)
        requires
            old(self).wf(),
        ensures
            final(self).wf(),
            final(self).names() == old(self).names(),
            match value {
                Some(v) => old(self)@.contains_key(name@) && *v == old(self)@[name@]
                    && final(self)@ == old(self)@.insert(name@, *final(v))
                    && place_of(old(self).names(), name@) is Some
                    && final(self).values() == old(self).values().update(
                    place_of(old(self).names(), name@)->0,
                    *final(v),
                ),
                None => !old(self)@.contains_key(name@) && final(self)@ == old(self)@
                    && final(self).values() == old(self).values(),
            },
    {
        match self.find(name) {
            Some(i) => {
                let ghost before = *self;
                let held = &mut self.values[i];
                proof {
                    let after = after_borrow(*self);
                    assert(after.names@ == before.names@);
                    assert(after.values@ == before.values@.update(i as int, *final(held)));
                    assert(after@ =~= before@.insert(name@, *final(held)));
                }
                Some(held)
            },
            None => None,
        }
    }

    /// The value at place `i`, to change it.
    pub fn value_at_mut(&mut self, i: usize) -> (value: &mut V)
        requires
            old(self).wf(),
            i < old(self).names().len(),
        ensures
            final(self).wf(),
            final(self).names() == old(self).names(),
            *value == old(self).values()[i as int],
            final(self).values() == old(self).values().update(i as int, *final(value)),
    {
        &mut self.values[i]
    }

    /// Puts `value` at place `i`, under the name that stands there.
    pub fn set_value_at(&mut self, i: usize, value: V)
        requires
            old(self).wf(),
            i < old(self).names().len(),
        ensures
            final(self).wf(),
            final(self).names() == old(self).names(),
            final(self).values() == old(self).values().update(i as int, value),
            final(self)@ == old(self)@.insert(old(self).names()[i as int]@, value),
    {
        self.values[i] = value;
        proof {
            assert(self@ =~= old(self)@.insert(old(self).names()[i as int]@, value));
        }
    }

    /// Puts `value` under `name`, and hands back the value that was there. A
    /// new name goes to the end; a name already there keeps its place.
    pub fn insert(&mut self, name: String, value: V) -> (before: Option<V>)
        requires
            old(self).wf(),
        ensures
            final(self).wf(),
            final(self)@ == old(self)@.insert(name@, value),
            match before {
                Some(v) => old(self)@.contains_key(name@) && v == old(self)@[name@],
                None => !old(self)@.contains_key(name@),
            },
            old(self)@.contains_key(name@) ==> final(self).names() == old(self).names(),
            !old(self)@.contains_key(name@) ==> final(self).names() == old(self).names().push(name)
                && final(self).values() == old(self).values().push(value),
    {
        match self.find(name.as_str()) {
            Some(i) => {
                let mut value = value;
                let ghost put = value;
                core::mem::swap(&mut self.values[i], &mut value);
                proof {
                    assert(self.values@ == old(self).values@.update(i as int, put));
                    assert(self@ =~= old(self)@.insert(name@, put));
                }
                Some(value)
            },
            None => {
                self.names.push(name);
                self.values.push(value);
                proof {
                    let last = old(self).names@.len() as int;
                    assert(self.names@[last]@ == name@);
                    assert forall|key: Seq<char>| #[trigger]
                        place_of(old(self).names@, key) is Some implies place_of(self.names@, key)
                        == place_of(old(self).names@, key) by {
                        let i = place_of(old(self).names@, key)->0;
                        assert(self.names@[i]@ == key);
                    }
                    assert forall|key: Seq<char>|
                        key != name@ && #[trigger] place_of(self.names@, key) is Some implies place_of(
                        old(self).names@,
                        key,
                    ) is Some by {
                        let i = place_of(self.names@, key)->0;
                        assert(old(self).names@[i]@ == key);
                    }
                    assert(place_of(self.names@, name@) == Some(last));
                    assert(self@ =~= old(self)@.insert(name@, value));
                }
                None
            },
        }
    }

    /// Takes `name` out, and hands back the value that was under it. The names
    /// that stay keep their order.
    pub fn remove(&mut self, name: &str) -> (taken: Option<V>)
        requires
            old(self).wf(),
        ensures
            final(self).wf(),
            final(self)@ == old(self)@.remove(name@),
            match taken {
                Some(v) => old(self)@.contains_key(name@) && v == old(self)@[name@],
                None => !old(self)@.contains_key(name@),
            },
            match place_of(old(self).names(), name@) {
                Some(i) => final(self).names() == old(self).names().remove(i) && final(self).values()
                    == old(self).values().remove(i),
                None => final(self).names() == old(self).names() && final(self).values() == old(self).values(),
            },
    {
        match self.find(name) {
            Some(i) => {
                let _gone = self.names.remove(i);
                let value = self.values.remove(i);
                proof {
                    let before = old(self).names@;
                    let at = i as int;
                    assert forall|a: int, b: int|
                        0 <= a < self.names@.len() && 0 <= b < self.names@.len()
                            && #[trigger] self.names@[a]@ == #[trigger] self.names@[b]@ implies a
                        == b by {
                        let a0 = if a < at { a } else { a + 1 };
                        let b0 = if b < at { b } else { b + 1 };
                        assert(before[a0]@ == before[b0]@);
                    }
                    assert forall|key: Seq<char>|
                        key != name@ && #[trigger] place_of(before, key) is Some implies place_of(
                        self.names@,
                        key,
                    ) is Some && self.values@[place_of(self.names@, key)->0] == old(self).values@[place_of(before, key)->0] by {
                        let j = place_of(before, key)->0;
                        let j1 = if j < at { j } else { j - 1 };
                        assert(self.names@[j1]@ == key);
                        let k = place_of(self.names@, key)->0;
                        let k0 = if k < at { k } else { k + 1 };
                        assert(before[k0]@ == key);
                    }
                    assert forall|key: Seq<char>| #[trigger]
                        place_of(self.names@, key) is Some implies key != name@ && place_of(
                        before,
                        key,
                    ) is Some by {
                        let k = place_of(self.names@, key)->0;
                        let k0 = if k < at { k } else { k + 1 };
                        assert(before[k0]@ == key);
                    }
                    assert(self@ =~= old(self)@.remove(name@));
                }
                Some(value)
            },
            None => {
                proof {
                    assert(self@ =~= old(self)@.remove(name@));
                }
                None
            },
        }
    }

    /// The names, in the order in which they came in.
    pub fn keys(&self) -> (names: Vec<String>)
        requires
            self.wf(),
        ensures
            names@ == self.names(),
    {
        let mut names: Vec<String> = Vec::new();
        let mut i: usize = 0;
        while i < self.names.len()
            invariant
                i <= self.names@.len(),
                names@ == self.names@.take(i as int),
            decreases self.names@.len() - i,
        {
            names.push(self.names[i].clone());
            proof {
                assert(names@ =~= self.names@.take(i + 1));
            }
            i += 1;
        }
        proof {
            assert(self.names@.take(i as int) =~= self.names@);
        }
        names
    }
}

} // verus!

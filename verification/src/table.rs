//! A small map from names to values that remembers the order in which its
//! names first came.

use vstd::prelude::*;

verus! {

/// Names and their values, side by side. No name occurs twice; a value
/// given for a name that is already there takes the old value's place.
#[derive(Debug)]
pub struct Table<V> {
    pub names: Vec<String>,
    pub values: Vec<V>,
}

impl<V> View for Table<V> {
    type V = Map<Seq<char>, V>;

    /// The map from each name to the value beside it.
    open spec fn view(&self) -> Map<Seq<char>, V> {
        Map::new(|name: Seq<char>| self.holds(name), |name: Seq<char>| self.values@[self.index_of(name)])
    }
}

impl<V> Table<V> {
    /// Every name has its value, and no name occurs twice.
    pub open spec fn well_formed(&self) -> bool {
        &&& self.names@.len() == self.values@.len()
        &&& forall|i: int, j: int|
            0 <= i < j < self.names@.len() ==> (#[trigger] self.names@[i])@ != (
            #[trigger] self.names@[j])@
    }

    /// The name is in the table.
    pub open spec fn holds(&self, name: Seq<char>) -> bool {
        exists|i: int| 0 <= i < self.names@.len() && (#[trigger] self.names@[i])@ == name
    }

    /// Where the name stands, if it is in the table.
    pub open spec fn index_of(&self, name: Seq<char>) -> int {
        choose|i: int| 0 <= i < self.names@.len() && (#[trigger] self.names@[i])@ == name
    }

    /// In a well-formed table the entry at a position is what the map
    /// gives for the name at that position.
    pub proof fn entry_at(&self, i: int)
        requires
            self.well_formed(),
            0 <= i < self.names@.len(),
        ensures
            self@.contains_key(self.names@[i]@),
            self@[self.names@[i]@] == self.values@[i],
            self.index_of(self.names@[i]@) == i,
    {
        let name = self.names@[i]@;
        assert(self.holds(name));
        let found = self.index_of(name);
        assert(0 <= found < self.names@.len() && self.names@[found]@ == name);
        if found < i {
            assert(self.names@[found]@ != self.names@[i]@);
        } else if i < found {
            assert(self.names@[i]@ != self.names@[found]@);
        }
    }

    /// An empty table.
    pub fn new() -> (table: Self)
        ensures
            table.well_formed(),
            table@ == Map::<Seq<char>, V>::empty(),
            table.names@.len() == 0,
    {
        let table = Table { names: Vec::new(), values: Vec::new() };
        proof {
            assert(table@ =~= Map::<Seq<char>, V>::empty());
        }
        table
    }

    /// How many names the table holds.
    pub fn len(&self) -> (count: usize)
        ensures
            count == self.names@.len(),
    {
        self.names.len()
    }

    /// Whether the name at `i` occurs again behind it.
    fn repeats(&self, i: usize) -> (repeated: bool)
        requires
            i < self.names@.len(),
        ensures
            repeated == exists|j: int|
                i < j < self.names@.len() && (#[trigger] self.names@[j])@ == self.names@[i as int]@,
    {
        let count = self.names.len();
        let mut j: usize = i + 1;
        while j < count
            invariant
                i < j <= self.names@.len(),
                count == self.names@.len(),
                forall|k: int| i < k < j ==> (#[trigger] self.names@[k])@ != self.names@[i as int]@,
            decreases self.names@.len() - j,
        {
            if self.names[j] == self.names[i] {
                return true;
            }
            j = j + 1;
        }
        false
    }

    /// Whether every name has its value and no name occurs twice.
    pub fn is_well_formed(&self) -> (well_formed: bool)
        ensures
            well_formed == self.well_formed(),
    {
        if self.names.len() != self.values.len() {
            return false;
        }
        let mut i: usize = 0;
        while i < self.names.len()
            invariant
                i <= self.names@.len(),
                forall|a: int, b: int|
                    0 <= a < i && a < b < self.names@.len() ==> (#[trigger] self.names@[a])@ != (
                    #[trigger] self.names@[b])@,
            decreases self.names@.len() - i,
        {
            if self.repeats(i) {
                return false;
            }
            i = i + 1;
        }
        true
    }

    /// Finds the position of a name.
    pub fn find(&self, name: &String) -> (position: Option<usize>)
        requires
            self.well_formed(),
        ensures
            match position {
                Some(i) => {
                    &&& i < self.names@.len()
                    &&& self.names@[i as int]@ == name@
                    &&& self@.contains_key(name@)
                    &&& self@[name@] == self.values@[i as int]
                },
                None => !self@.contains_key(name@),
            },
    {
        let mut i: usize = 0;
        while i < self.names.len()
            invariant
                i <= self.names@.len(),
                self.well_formed(),
                forall|j: int| 0 <= j < i ==> (#[trigger] self.names@[j])@ != name@,
            decreases self.names@.len() - i,
        {
            if self.names[i] == *name {
                proof {
                    self.entry_at(i as int);
                }
                return Some(i);
            }
            i = i + 1;
        }
        None
    }

    /// Looks a name up.
    pub fn get(&self, name: &String) -> (value: Option<&V>)
        requires
            self.well_formed(),
        ensures
            match value {
                Some(v) => self@.contains_key(name@) && *v == self@[name@],
                None => !self@.contains_key(name@),
            },
    {
        match self.find(name) {
            Some(i) => Some(&self.values[i]),
            None => None,
        }
    }

    /// Gives a name its value. A new name goes to the end of the table;
    /// a name that is already there keeps its place, and the value it had
    /// is handed back.
    pub fn insert(&mut self, name: String, value: V) -> (displaced: Option<V>)
        requires
            old(self).well_formed(),
        ensures
            final(self).well_formed(),
            final(self)@ == old(self)@.insert(name@, value),
            displaced == (if old(self)@.contains_key(name@) {
                Some(old(self)@[name@])
            } else {
                None
            }),
            old(self)@.contains_key(name@) ==> final(self).names@ == old(self).names@ && final(self).values@ == old(self).values@.update(old(self).index_of(name@), value),
            !old(self)@.contains_key(name@) ==> final(self).names@ == old(self).names@.push(name)
                && final(self).values@ == old(self).values@.push(value),
    {
        let found = self.find(&name);
        let ghost given = value;
        let ghost key = name@;
        match found {
            Some(i) => {
                let mut value = value;
                std::mem::swap(&mut self.values[i], &mut value);
                proof {
                    old(self).entry_at(i as int);
                    assert(self.names@ == old(self).names@);
                    assert(self.values@ =~= old(self).values@.update(i as int, given));
                    assert forall|k: Seq<char>| self.holds(k) == old(self).holds(k) by {
                        if self.holds(k) {
                            let at = self.index_of(k);
                            assert(old(self).names@[at]@ == k);
                        }
                        if old(self).holds(k) {
                            let at = old(self).index_of(k);
                            assert(self.names@[at]@ == k);
                        }
                    }
                    assert forall|k: Seq<char>| self@.contains_key(k) implies #[trigger] self@[k]
                        == old(self)@.insert(key, given)[k] by {
                        let at = self.index_of(k);
                        self.entry_at(at);
                        old(self).entry_at(at);
                    }
                    assert(self@ =~= old(self)@.insert(key, given));
                }
                Some(value)
            },
            None => {
                self.names.push(name);
                self.values.push(value);
                proof {
                    let n = old(self).names@.len() as int;
                    assert(self.names@[n]@ == key);
                    assert forall|a: int, b: int| 0 <= a < b < self.names@.len() implies (
                    #[trigger] self.names@[a])@ != (#[trigger] self.names@[b])@ by {
                        assert(self.names@[a] == old(self).names@[a]);
                        if b < n {
                            assert(self.names@[b] == old(self).names@[b]);
                        } else {
                            assert(!old(self).holds(key));
                        }
                    }
                    assert forall|k: Seq<char>|
                        self.holds(k) == (old(self).holds(k) || k == key) by {
                        if old(self).holds(k) {
                            let at = old(self).index_of(k);
                            assert(self.names@[at] == old(self).names@[at]);
                            assert(self.names@[at]@ == k);
                        }
                        if self.holds(k) {
                            let at = self.index_of(k);
                            if at < n {
                                assert(self.names@[at] == old(self).names@[at]);
                                assert(old(self).names@[at]@ == k);
                            }
                        }
                    }
                    assert forall|k: Seq<char>| self@.contains_key(k) implies #[trigger] self@[k]
                        == old(self)@.insert(key, given)[k] by {
                        let at = self.index_of(k);
                        self.entry_at(at);
                        if at < n {
                            assert(self.names@[at] == old(self).names@[at]);
                            old(self).entry_at(at);
                        }
                    }
                    assert(self@ =~= old(self)@.insert(key, given));
                }
                None
            },
        }
    }
}

} // verus!

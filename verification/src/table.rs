//! Finite maps from names to ids, as the frames of the scope stack hold them.

use vstd::prelude::*;
use crate::bytes::{bytes_eq, to_vec};

verus! {

/// What a map holds under a key, if anything.
pub open spec fn lookup(m: Map<Seq<u8>, usize>, name: Seq<u8>) -> Option<usize> {
    if m.dom().contains(name) {
        Some(m[name])
    } else {
        None
    }
}

/// The map that a list of bindings stands for: a later binding of a name
/// overrides an earlier one.
pub closed spec fn bindings(entries: Seq<(Vec<u8>, usize)>) -> Map<Seq<u8>, usize>
    decreases entries.len(),
{
    if entries.len() == 0 {
        Map::empty()
    } else {
        bindings(entries.drop_last()).insert(entries.last().0@, entries.last().1)
    }
}

proof fn lemma_bindings_push(entries: Seq<(Vec<u8>, usize)>, entry: (Vec<u8>, usize))
    ensures
        bindings(entries.push(entry)) == bindings(entries).insert(entry.0@, entry.1),
{
    assert(entries.push(entry).drop_last() =~= entries);
}

/// A map from names to ids.
pub struct Table {
    entries: Vec<(Vec<u8>, usize)>,
}

impl View for Table {
    type V = Map<Seq<u8>, usize>;

    closed spec fn view(&self) -> Map<Seq<u8>, usize> {
        bindings(self.entries@)
    }
}

impl Table {
    /// The empty map.
    pub fn new() -> (table: Table)
        ensures
            table@ == Map::<Seq<u8>, usize>::empty(),
    {
        Table { entries: Vec::new() }
    }

    /// The id bound to `name`.
    pub fn get(&self, name: &[u8]) -> (id: Option<usize>)
        ensures
            id == lookup(self@, name@),
    {
        let mut i: usize = self.entries.len();
        assert(self.entries@.take(i as int) =~= self.entries@);
        while i > 0
            invariant
                i <= self.entries@.len(),
                lookup(bindings(self.entries@), name@) == lookup(
                    bindings(self.entries@.take(i as int)),
                    name@,
                ),
            decreases i,
        {
            i -= 1;
            let ghost prefix = self.entries@.take(i + 1);
            assert(prefix.drop_last() =~= self.entries@.take(i as int));
            assert(prefix.last() == self.entries@[i as int]);
            if bytes_eq(self.entries[i].0.as_slice(), name) {
                return Some(self.entries[i].1);
            }
        }
        assert(self.entries@.take(0) =~= Seq::<(Vec<u8>, usize)>::empty());
        None
    }

    /// Binds `name` to `id` and returns what `name` was bound to before.
    pub fn insert(&mut self, name: Vec<u8>, id: usize) -> (previous: Option<usize>)
        ensures
            final(self)@ == old(self)@.insert(name@, id),
            previous == lookup(old(self)@, name@),
    {
        let previous = self.get(name.as_slice());
        proof {
            lemma_bindings_push(self.entries@, (name, id));
        }
        self.entries.push((name, id));
        previous
    }

    /// Unbinds `name` and returns what it was bound to.
    pub fn remove(&mut self, name: &[u8]) -> (previous: Option<usize>)
        ensures
            final(self)@ == old(self)@.remove(name@),
            previous == lookup(old(self)@, name@),
    {
        let previous = self.get(name);
        let mut kept: Vec<(Vec<u8>, usize)> = Vec::new();
        let mut i: usize = 0;
        while i < self.entries.len()
            invariant
                i <= self.entries@.len(),
                bindings(kept@) == bindings(self.entries@.take(i as int)).remove(name@),
            decreases self.entries@.len() - i,
        {
            let ghost prefix = self.entries@.take(i + 1);
            assert(prefix.drop_last() =~= self.entries@.take(i as int));
            assert(prefix.last() == self.entries@[i as int]);
            if !bytes_eq(self.entries[i].0.as_slice(), name) {
                let entry = (to_vec(self.entries[i].0.as_slice()), self.entries[i].1);
                proof {
                    lemma_bindings_push(kept@, entry);
                    assert(bindings(kept@).insert(entry.0@, entry.1) =~= bindings(prefix).remove(
                        name@,
                    ));
                }
                kept.push(entry);
            } else {
                assert(bindings(kept@) =~= bindings(prefix).remove(name@));
            }
            i += 1;
        }
        assert(self.entries@.take(i as int) =~= self.entries@);
        self.entries = kept;
        previous
    }
}

/// A finite set of names.
pub struct NameSet {
    names: Vec<Vec<u8>>,
}

/// The set that a list of names stands for.
pub closed spec fn members(names: Seq<Vec<u8>>) -> Set<Seq<u8>> {
    Set::new(|name: Seq<u8>| exists|i: int| 0 <= i < names.len() && #[trigger] names[i]@ == name)
}

impl View for NameSet {
    type V = Set<Seq<u8>>;

    closed spec fn view(&self) -> Set<Seq<u8>> {
        members(self.names@)
    }
}

impl NameSet {
    /// The empty set.
    pub fn new() -> (set: NameSet)
        ensures
            set@ == Set::<Seq<u8>>::empty(),
    {
        let set = NameSet { names: Vec::new() };
        assert(set@ =~= Set::<Seq<u8>>::empty());
        set
    }

    /// Whether `name` is in the set.
    pub fn contains(&self, name: &[u8]) -> (found: bool)
        ensures
            found == self@.contains(name@),
    {
        let mut i: usize = 0;
        while i < self.names.len()
            invariant
                i <= self.names@.len(),
                forall|j: int| 0 <= j < i ==> self.names@[j]@ != name@,
            decreases self.names@.len() - i,
        {
            if bytes_eq(self.names[i].as_slice(), name) {
                return true;
            }
            i += 1;
        }
        false
    }

    /// Adds `name` to the set.
    pub fn insert(&mut self, name: Vec<u8>)
        ensures
            final(self)@ == old(self)@.insert(name@),
    {
        let ghost before = self.names@;
        self.names.push(name);
        proof {
            let after = self.names@;
            assert forall|n: Seq<u8>| members(after).contains(n) <==> members(before).insert(
                name@,
            ).contains(n) by {
                if members(after).contains(n) {
                    let i = choose|i: int| 0 <= i < after.len() && #[trigger] after[i]@ == n;
                    if i < before.len() {
                        assert(before[i]@ == n);
                    }
                }
                if members(before).contains(n) {
                    let i = choose|i: int| 0 <= i < before.len() && #[trigger] before[i]@ == n;
                    assert(after[i]@ == n);
                }
                if n == name@ {
                    assert(after[before.len() as int]@ == n);
                }
            }
            assert(members(after) =~= members(before).insert(name@));
        }
    }

    /// Takes `name` out of the set.
    pub fn remove(&mut self, name: &[u8])
        ensures
            final(self)@ == old(self)@.remove(name@),
    {
        let mut kept: Vec<Vec<u8>> = Vec::new();
        let mut i: usize = 0;
        while i < self.names.len()
            invariant
                i <= self.names@.len(),
                forall|n: Seq<u8>|
                    members(kept@).contains(n) <==> (n != name@ && exists|j: int|
                        0 <= j < i && #[trigger] self.names@[j]@ == n),
            decreases self.names@.len() - i,
        {
            let ghost kept_before = kept@;
            if !bytes_eq(self.names[i].as_slice(), name) {
                let copy = to_vec(self.names[i].as_slice());
                kept.push(copy);
            }
            proof {
                let names = self.names@;
                let kept_after = kept@;
                assert forall|n: Seq<u8>|
                    members(kept_after).contains(n) <==> (n != name@ && exists|j: int|
                        0 <= j < i + 1 && #[trigger] names[j]@ == n) by {
                    if members(kept_after).contains(n) {
                        let k = choose|k: int|
                            0 <= k < kept_after.len() && #[trigger] kept_after[k]@ == n;
                        if k < kept_before.len() {
                            assert(kept_before[k]@ == n);
                            assert(members(kept_before).contains(n));
                            let j = choose|j: int| 0 <= j < i && #[trigger] names[j]@ == n;
                            assert(names[j]@ == n);
                        } else {
                            assert(names[i as int]@ == n);
                        }
                    }
                    if n != name@ && exists|j: int| 0 <= j < i + 1 && #[trigger] names[j]@ == n {
                        let j = choose|j: int| 0 <= j < i + 1 && #[trigger] names[j]@ == n;
                        if j < i {
                            assert(members(kept_before).contains(n));
                            let k = choose|k: int|
                                0 <= k < kept_before.len() && #[trigger] kept_before[k]@ == n;
                            assert(kept_after[k]@ == n);
                        } else {
                            assert(kept_after[kept_before.len() as int]@ == n);
                        }
                    }
                }
            }
            i += 1;
        }
        proof {
            let names = self.names@;
            assert forall|n: Seq<u8>| members(kept@).contains(n) <==> members(names).remove(
                name@,
            ).contains(n) by {
                if members(names).contains(n) {
                    let j = choose|j: int| 0 <= j < names.len() && #[trigger] names[j]@ == n;
                    assert(names[j]@ == n);
                }
            }
            assert(members(kept@) =~= members(names).remove(name@));
        }
        self.names = kept;
    }
}

} // verus!

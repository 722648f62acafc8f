//! Overlays: what a module exports.

use vstd::prelude::*;
use crate::ast::{BlockId, DeclId};
use crate::bytes::{bytes_eq, name_with_head, to_vec, with_head};

verus! {

/// A list of names with what each stands for, in the order of entry.
pub type Bindings = Seq<(Seq<u8>, usize)>;

/// A list of bindings as it is handed around, by value.
pub open spec fn named(pairs: Seq<(Vec<u8>, usize)>) -> Bindings {
    pairs.map_values(|pair: (Vec<u8>, usize)| (pair.0@, pair.1))
}

/// Whether entry `i` is the first one for `name`.
pub open spec fn is_first(list: Bindings, name: Seq<u8>, i: int) -> bool {
    &&& 0 <= i < list.len()
    &&& list[i].0 == name
    &&& forall|j: int| 0 <= j < i ==> (#[trigger] list[j]).0 != name
}

/// Whether the list has an entry for `name`.
pub open spec fn binds(list: Bindings, name: Seq<u8>) -> bool {
    exists|i: int| 0 <= i < list.len() && (#[trigger] list[i]).0 == name
}

/// What the first entry for `name` holds, and nothing if there is no entry.
pub open spec fn bound(list: Bindings, name: Seq<u8>) -> Option<usize> {
    if binds(list, name) {
        Some(list[first_index(list, name)].1)
    } else {
        None
    }
}

/// The index of the first entry for `name`, where there is one.
pub open spec fn first_index(list: Bindings, name: Seq<u8>) -> int {
    choose|i: int| is_first(list, name, i)
}

/// The list with `name` bound to `id`: in the place of the first entry for
/// `name` if there is one, and at the end otherwise.
pub open spec fn put(list: Bindings, name: Seq<u8>, id: usize) -> Bindings {
    if binds(list, name) {
        list.update(first_index(list, name), (name, id))
    } else {
        list.push((name, id))
    }
}

/// The first entry for a name is at one index only.
pub proof fn lemma_first_is_unique(list: Bindings, name: Seq<u8>, i: int)
    requires
        is_first(list, name, i),
    ensures
        binds(list, name),
        first_index(list, name) == i,
        bound(list, name) == Some(list[i].1),
{
    let j = first_index(list, name);
    assert(is_first(list, name, j));
    if j < i {
        assert(list[j].0 != name);
    }
    if i < j {
        assert(list[i].0 != name);
    }
}

/// Every entry with the module's name put before its own.
pub open spec fn headed(list: Bindings, head: Seq<u8>) -> Bindings {
    list.map_values(|entry: (Seq<u8>, usize)| (with_head(head, entry.0), entry.1))
}

/// What a module exports: commands by name and environment variables by name.
#[derive(Debug, Clone, PartialEq, Eq)]
pub struct Overlay {
    decls: Vec<(Vec<u8>, DeclId)>,
    env_vars: Vec<(Vec<u8>, BlockId)>,
}

/// The exports of a module as lists.
#[verifier::ext_equal]
pub struct OverlayView {
    pub decls: Bindings,
    pub env_vars: Bindings,
}

impl OverlayView {
    /// The exports with the command `decl_id` exported as `name`.
    pub open spec fn with_decl(self, name: Seq<u8>, decl_id: DeclId) -> OverlayView {
        OverlayView { decls: put(self.decls, name, decl_id), ..self }
    }

    /// The exports with the environment variable that `block_id` computes
    /// exported as `name`.
    pub open spec fn with_env_var(self, name: Seq<u8>, block_id: BlockId) -> OverlayView {
        OverlayView { env_vars: put(self.env_vars, name, block_id), ..self }
    }

    /// No exports.
    pub open spec fn empty() -> OverlayView {
        OverlayView { decls: Seq::empty(), env_vars: Seq::empty() }
    }
}

impl View for Overlay {
    type V = OverlayView;

    closed spec fn view(&self) -> OverlayView {
        OverlayView { decls: named(self.decls@), env_vars: named(self.env_vars@) }
    }
}

fn find(list: &Vec<(Vec<u8>, usize)>, name: &[u8]) -> (at: Option<usize>)
    ensures
        match at {
            Some(i) => is_first(named(list@), name@, i as int),
            None => !binds(named(list@), name@),
        },
{
    let mut i: usize = 0;
    while i < list.len()
        invariant
            i <= list@.len(),
            forall|j: int| 0 <= j < i ==> (#[trigger] named(list@)[j]).0 != name@,
        decreases list@.len() - i,
    {
        if bytes_eq(list[i].0.as_slice(), name) {
            return Some(i);
        }
        i += 1;
    }
    None
}

fn put_entry(list: &mut Vec<(Vec<u8>, usize)>, name: &[u8], id: usize) -> (previous: Option<usize>)
    ensures
        previous == bound(named(old(list)@), name@),
        named(final(list)@) == put(named(old(list)@), name@, id),
{
    match find(list, name) {
        Some(i) => {
            let previous = list[i].1;
            let ghost before = named(list@);
            list.set(i, (to_vec(name), id));
            assert(named(list@) =~= before.update(i as int, (name@, id)));
            proof {
                lemma_first_is_unique(before, name@, i as int);
            }
            Some(previous)
        },
        None => {
            let ghost before = named(list@);
            list.push((to_vec(name), id));
            assert(named(list@) =~= before.push((name@, id)));
            None
        },
    }
}

fn copy_pairs(list: &Vec<(Vec<u8>, usize)>) -> (same: Vec<(Vec<u8>, usize)>)
    ensures
        named(same@) == named(list@),
{
    let mut same: Vec<(Vec<u8>, usize)> = Vec::new();
    let mut i: usize = 0;
    while i < list.len()
        invariant
            i <= list@.len(),
            same@.len() == i,
            forall|j: int|
                0 <= j < i ==> (#[trigger] same@[j]).0@ == list@[j].0@ && same@[j].1 == list@[j].1,
        decreases list@.len() - i,
    {
        same.push((to_vec(list[i].0.as_slice()), list[i].1));
        i += 1;
    }
    assert(named(same@) =~= named(list@));
    same
}

impl Overlay {
    /// The overlay that exports nothing.
    pub fn new() -> (overlay: Overlay)
        ensures
            overlay@ == OverlayView::empty(),
    {
        let overlay = Overlay { decls: Vec::new(), env_vars: Vec::new() };
        assert(overlay@.decls =~= Seq::<(Seq<u8>, usize)>::empty());
        assert(overlay@.env_vars =~= Seq::<(Seq<u8>, usize)>::empty());
        overlay
    }

    /// Exports the command `decl_id` as `name` and returns what `name` stood
    /// for before.
    pub fn add_decl(&mut self, name: &[u8], decl_id: DeclId) -> (previous: Option<DeclId>)
        ensures
            previous == bound(old(self)@.decls, name@),
            final(self)@ == old(self)@.with_decl(name@, decl_id),
    {
        put_entry(&mut self.decls, name, decl_id)
    }

    /// Exports the environment variable that `block_id` computes as `name` and
    /// returns what `name` stood for before.
    pub fn add_env_var(&mut self, name: &[u8], block_id: BlockId) -> (previous: Option<BlockId>)
        ensures
            previous == bound(old(self)@.env_vars, name@),
            final(self)@ == old(self)@.with_env_var(name@, block_id),
    {
        put_entry(&mut self.env_vars, name, block_id)
    }

    /// The command exported as `name`.
    pub fn get_decl_id(&self, name: &[u8]) -> (id: Option<DeclId>)
        ensures
            id == bound(self@.decls, name@),
    {
        match find(&self.decls, name) {
            Some(i) => {
                proof {
                    lemma_first_is_unique(named(self.decls@), name@, i as int);
                }
                Some(self.decls[i].1)
            },
            None => None,
        }
    }

    /// Whether an environment variable is exported as `name`.
    pub fn has_env_var(&self, name: &[u8]) -> (found: bool)
        ensures
            found == binds(self@.env_vars, name@),
    {
        match find(&self.env_vars, name) {
            Some(i) => {
                assert(named(self.env_vars@)[i as int].0 == name@);
                true
            },
            None => false,
        }
    }

    /// Every exported command under its bare name.
    pub fn decls(&self) -> (list: Vec<(Vec<u8>, DeclId)>)
        ensures
            named(list@) == self@.decls,
    {
        copy_pairs(&self.decls)
    }

    /// Every exported command under its name with the module's name before it.
    pub fn decls_with_head(&self, head: &[u8]) -> (list: Vec<(Vec<u8>, DeclId)>)
        ensures
            named(list@) == headed(self@.decls, head@),
    {
        let mut list: Vec<(Vec<u8>, DeclId)> = Vec::new();
        let mut i: usize = 0;
        while i < self.decls.len()
            invariant
                i <= self.decls@.len(),
                list@.len() == i,
                forall|j: int|
                    0 <= j < i ==> (#[trigger] list@[j]).0@ == with_head(head@, self.decls@[j].0@)
                        && list@[j].1 == self.decls@[j].1,
            decreases self.decls@.len() - i,
        {
            list.push((name_with_head(head, self.decls[i].0.as_slice()), self.decls[i].1));
            i += 1;
        }
        assert(named(list@) =~= headed(named(self.decls@), head@));
        list
    }

    /// The command exported as `name`, under that name with the module's name
    /// before it.
    pub fn decl_with_head(&self, name: &[u8], head: &[u8]) -> (entry: Option<(Vec<u8>, DeclId)>)
        ensures
            match entry {
                Some(pair) => pair.0@ == with_head(head@, name@) && bound(self@.decls, name@)
                    == Some(pair.1),
                None => bound(self@.decls, name@) is None,
            },
    {
        match find(&self.decls, name) {
            Some(i) => {
                proof {
                    lemma_first_is_unique(named(self.decls@), name@, i as int);
                }
                Some((name_with_head(head, name), self.decls[i].1))
            },
            None => None,
        }
    }
}

} // verus!

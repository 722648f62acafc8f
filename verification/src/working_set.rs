//! The working set: the scoped symbol table that a parsing session fills.

use vstd::prelude::*;
use crate::ast::{Block, BlockId, DeclId, OverlayId, Type, VarId};
use crate::bytes::to_vec;
use crate::decl::{name_bytes, Decl};
use crate::model::{find_decl_in, find_in, FileEntry, ScopeView, TableKind, WorkingSetView};
use crate::overlay::{named, Overlay};
use crate::span::Span;
use crate::table::{lookup, NameSet, Table};

verus! {

struct ScopeFrame {
    decls: Table,
    predecls: Table,
    variables: Table,
    aliases: Table,
    overlays: Table,
    hidden: NameSet,
}

impl View for ScopeFrame {
    type V = ScopeView;

    closed spec fn view(&self) -> ScopeView {
        ScopeView {
            decls: self.decls@,
            predecls: self.predecls@,
            variables: self.variables@,
            aliases: self.aliases@,
            overlays: self.overlays@,
            hidden: self.hidden@,
        }
    }
}

impl ScopeFrame {
    fn new() -> (frame: ScopeFrame)
        ensures
            frame@ == ScopeView::empty(),
    {
        ScopeFrame {
            decls: Table::new(),
            predecls: Table::new(),
            variables: Table::new(),
            aliases: Table::new(),
            overlays: Table::new(),
            hidden: NameSet::new(),
        }
    }

    fn bring(&mut self, name: Vec<u8>, id: DeclId)
        ensures
            final(self)@ == old(self)@.bring(name@, id),
    {
        self.hidden.remove(name.as_slice());
        self.decls.insert(name, id);
    }

    fn table(&self, kind: &TableKind) -> (table: &Table)
        ensures
            table@ == self@.table(*kind),
    {
        match kind {
            TableKind::Variables => &self.variables,
            TableKind::Aliases => &self.aliases,
            TableKind::Overlays => &self.overlays,
        }
    }
}

spec fn frames(root: ScopeFrame, nested: Seq<ScopeFrame>) -> Seq<ScopeView> {
    seq![root@] + nested.map_values(|frame: ScopeFrame| frame@)
}

proof fn lemma_frames_push(root: ScopeFrame, nested: Seq<ScopeFrame>, frame: ScopeFrame)
    ensures
        frames(root, nested.push(frame)) == frames(root, nested).push(frame@),
        frames(root, nested.push(frame)).drop_last() == frames(root, nested),
{
    assert(frames(root, nested.push(frame)) =~= frames(root, nested).push(frame@));
    assert(frames(root, nested).push(frame@).drop_last() =~= frames(root, nested));
}

proof fn lemma_frames_top(root: ScopeFrame, nested: Seq<ScopeFrame>, frame: ScopeFrame)
    requires
        nested.len() > 0,
    ensures
        frames(root, nested).last() == nested.last()@,
        frames(root, nested.drop_last().push(frame)) == frames(root, nested).update(
            nested.len() as int,
            frame@,
        ),
        frames(root, nested.drop_last()) == frames(root, nested).drop_last(),
{
    assert(frames(root, nested.drop_last().push(frame)) =~= frames(root, nested).update(
        nested.len() as int,
        frame@,
    ));
    assert(frames(root, nested.drop_last()) =~= frames(root, nested).drop_last());
}

proof fn lemma_frames_root(root: ScopeFrame, changed: ScopeFrame)
    ensures
        frames(root, Seq::empty()).last() == root@,
        frames(changed, Seq::empty()) == frames(root, Seq::empty()).update(0, changed@),
{
    assert(frames(changed, Seq::empty()) =~= frames(root, Seq::empty()).update(0, changed@));
}

/// The scoped symbol table of a parsing session.
///
/// Files, declarations, blocks, overlays, variables and aliases are only ever
/// added, so an id that was handed out stays good. Names live in the frames
/// of a scope stack whose outermost frame is always there.
pub struct WorkingSet {
    contents: Vec<u8>,
    files: Vec<FileEntry>,
    decls: Vec<Decl>,
    blocks: Vec<Block>,
    overlays: Vec<Overlay>,
    variables: Vec<Type>,
    aliases: Vec<Vec<Span>>,
    root: ScopeFrame,
    nested: Vec<ScopeFrame>,
    plugins_dirty: bool,
}

impl View for WorkingSet {
    type V = WorkingSetView;

    closed spec fn view(&self) -> WorkingSetView {
        WorkingSetView {
            contents: self.contents@,
            files: self.files@,
            decls: self.decls@.map_values(|decl: Decl| decl@),
            blocks: self.blocks@,
            overlays: self.overlays@,
            variables: self.variables@,
            aliases: self.aliases@.map_values(|spans: Vec<Span>| spans@),
            scopes: frames(self.root, self.nested@),
            plugins_dirty: self.plugins_dirty,
        }
    }
}

impl WorkingSet {
    /// The working set of a fresh session.
    pub fn new() -> (working_set: WorkingSet)
        ensures
            working_set@ == WorkingSetView::empty(),
    {
        let working_set = WorkingSet {
            contents: Vec::new(),
            files: Vec::new(),
            decls: Vec::new(),
            blocks: Vec::new(),
            overlays: Vec::new(),
            variables: Vec::new(),
            aliases: Vec::new(),
            root: ScopeFrame::new(),
            nested: Vec::new(),
            plugins_dirty: false,
        };
        assert(working_set@ =~= WorkingSetView::empty());
        working_set
    }

    /// The working set of a session is sound: the scope stack has its
    /// outermost frame, and every id is a machine number.
    pub proof fn lemma_rooted(&self)
        ensures
            self@.is_sound(),
            self@.depth() >= 0,
    {
        broadcast use vstd::std_specs::vec::axiom_spec_len;

        assert(self.contents.len() == self.contents@.len());
        assert(self.files.len() == self.files@.len());
        assert(self.decls.len() == self.decls@.len());
        assert(self.blocks.len() == self.blocks@.len());
        assert(self.overlays.len() == self.overlays@.len());
        assert(self.variables.len() == self.variables@.len());
        assert(self.aliases.len() == self.aliases@.len());
    }

    /// How many scopes were entered and not yet left.
    pub fn scope_depth(&self) -> (depth: usize)
        ensures
            depth == self@.depth(),
    {
        self.nested.len()
    }

    /// Enters a scope: names introduced from now on are gone when it is left.
    pub fn enter_scope(&mut self)
        ensures
            final(self)@ == old(self)@.enter_scope(),
    {
        let frame = ScopeFrame::new();
        proof {
            lemma_frames_push(self.root, self.nested@, frame);
        }
        self.nested.push(frame);
    }

    /// Leaves the innermost scope. Without an entered scope this does nothing.
    pub fn exit_scope(&mut self)
        ensures
            final(self)@ == old(self)@.exit_scope(),
    {
        proof {
            if self.nested@.len() > 0 {
                lemma_frames_top(self.root, self.nested@, self.root);
            }
        }
        self.nested.pop();
    }

    /// Where the next file will start in the file buffer.
    pub fn next_span_start(&self) -> (start: usize)
        ensures
            start == self@.next_span_start(),
    {
        self.contents.len()
    }

    /// How many files were added.
    pub fn num_files(&self) -> (n: usize)
        ensures
            n == self@.files.len(),
    {
        self.files.len()
    }

    /// How many declarations were added.
    pub fn num_decls(&self) -> (n: usize)
        ensures
            n == self@.decls.len(),
    {
        self.decls.len()
    }

    /// How many blocks were added.
    pub fn num_blocks(&self) -> (n: usize)
        ensures
            n == self@.blocks.len(),
    {
        self.blocks.len()
    }

    /// How many overlays were added.
    pub fn num_overlays(&self) -> (n: usize)
        ensures
            n == self@.overlays.len(),
    {
        self.overlays.len()
    }

    /// Appends the bytes of a file to the file buffer and returns the file's
    /// number.
    pub fn add_file(&mut self, filename: String, contents: &[u8]) -> (id: usize)
        ensures
            final(self)@ == old(self)@.add_file(filename, contents@),
            id == old(self)@.files.len(),
    {
        let start: usize = self.contents.len();
        let mut i: usize = 0;
        while i < contents.len()
            invariant
                i <= contents@.len(),
                self.contents@ == old(self).contents@ + contents@.take(i as int),
                start == old(self).contents@.len(),
                self.files == old(self).files,
                self.decls == old(self).decls,
                self.blocks == old(self).blocks,
                self.overlays == old(self).overlays,
                self.variables == old(self).variables,
                self.aliases == old(self).aliases,
                self.root == old(self).root,
                self.nested == old(self).nested,
                self.plugins_dirty == old(self).plugins_dirty,
            decreases contents@.len() - i,
        {
            self.contents.push(contents[i]);
            assert(old(self).contents@ + contents@.take(i + 1) =~= (old(self).contents@
                + contents@.take(i as int)).push(contents@[i as int]));
            i += 1;
        }
        assert(contents@.take(i as int) =~= contents@);
        let id: usize = self.files.len();
        let end: usize = self.contents.len();
        self.files.push(FileEntry { name: filename, span: Span { start, end } });
        assert(self@ =~= old(self)@.add_file(filename, contents@));
        id
    }

    /// The bytes that `span` covers in the file buffer, and none if `span`
    /// does not lie in it.
    pub fn get_span_contents(&self, span: Span) -> (bytes: &[u8])
        ensures
            bytes@ == self@.span_contents(span),
    {
        if span.start <= span.end && span.end <= self.contents.len() {
            vstd::slice::slice_subrange(self.contents.as_slice(), span.start, span.end)
        } else {
            let bytes = vstd::slice::slice_subrange(self.contents.as_slice(), 0, 0);
            assert(bytes@ =~= Seq::<u8>::empty());
            bytes
        }
    }

    /// The command that `name` stands for: the innermost frames are asked
    /// first, and a hidden name is passed over.
    pub fn find_decl(&self, name: &[u8]) -> (id: Option<DeclId>)
        ensures
            id == self@.find_decl(name@),
    {
        let ghost all = self@.scopes;
        let mut hidden: bool = false;
        let mut i: usize = self.nested.len();
        assert(all.take(i + 1) =~= all);
        while i > 0
            invariant
                all == frames(self.root, self.nested@),
                i <= self.nested@.len(),
                find_decl_in(all, name@, false) == find_decl_in(all.take(i + 1), name@, hidden),
            decreases i,
        {
            i -= 1;
            let frame = &self.nested[i];
            assert(all.take(i + 2).last() == frame@);
            assert(all.take(i + 2).drop_last() =~= all.take(i + 1));
            hidden = hidden || frame.hidden.contains(name);
            match frame.predecls.get(name) {
                Some(id) => {
                    return Some(id);
                },
                None => {},
            }
            match frame.decls.get(name) {
                Some(id) => {
                    if !hidden {
                        return Some(id);
                    }
                },
                None => {},
            }
        }
        assert(all.take(1).last() == self.root@);
        assert(all.take(1).drop_last() =~= Seq::<ScopeView>::empty());
        hidden = hidden || self.root.hidden.contains(name);
        assert(find_decl_in(Seq::<ScopeView>::empty(), name@, hidden) is None);
        match self.root.predecls.get(name) {
            Some(id) => {
                return Some(id);
            },
            None => {},
        }
        match self.root.decls.get(name) {
            Some(id) => {
                if !hidden {
                    return Some(id);
                }
            },
            None => {},
        }
        None
    }

    fn find_bound(&self, kind: TableKind, name: &[u8]) -> (id: Option<usize>)
        ensures
            id == find_in(self@.scopes, kind, name@),
    {
        let ghost all = self@.scopes;
        let mut i: usize = self.nested.len();
        assert(all.take(i + 1) =~= all);
        while i > 0
            invariant
                all == frames(self.root, self.nested@),
                i <= self.nested@.len(),
                find_in(all, kind, name@) == find_in(all.take(i + 1), kind, name@),
            decreases i,
        {
            i -= 1;
            let frame = &self.nested[i];
            assert(all.take(i + 2).last() == frame@);
            assert(all.take(i + 2).drop_last() =~= all.take(i + 1));
            match frame.table(&kind).get(name) {
                Some(id) => {
                    return Some(id);
                },
                None => {},
            }
        }
        assert(all.take(1).last() == self.root@);
        assert(all.take(1).drop_last() =~= Seq::<ScopeView>::empty());
        assert(find_in(Seq::<ScopeView>::empty(), kind, name@) is None);
        self.root.table(&kind).get(name)
    }

    /// The overlay that `name` stands for.
    pub fn find_overlay(&self, name: &[u8]) -> (id: Option<OverlayId>)
        ensures
            id == self@.find_overlay(name@),
    {
        self.find_bound(TableKind::Overlays, name)
    }

    /// The variable that `name` stands for.
    pub fn find_variable(&self, name: &[u8]) -> (id: Option<VarId>)
        ensures
            id == self@.find_variable(name@),
    {
        self.find_bound(TableKind::Variables, name)
    }

    /// The tokens that the alias `name` stands for.
    pub fn find_alias(&self, name: &[u8]) -> (replacement: Option<&Vec<Span>>)
        ensures
            match replacement {
                Some(spans) => self@.find_alias(name@) == Some(spans@),
                None => self@.find_alias(name@) is None,
            },
    {
        match self.find_bound(TableKind::Aliases, name) {
            Some(id) => if id < self.aliases.len() {
                Some(&self.aliases[id])
            } else {
                None
            },
            None => None,
        }
    }

    /// The declaration `id`.
    pub fn get_decl(&self, id: DeclId) -> (decl: Option<&Decl>)
        ensures
            match decl {
                Some(d) => id < self@.decls.len() && d@ == self@.decls[id as int],
                None => id >= self@.decls.len(),
            },
    {
        if id < self.decls.len() {
            Some(&self.decls[id])
        } else {
            None
        }
    }

    /// The block `id`.
    pub fn get_block(&self, id: BlockId) -> (block: Option<&Block>)
        ensures
            match block {
                Some(b) => id < self@.blocks.len() && *b == self@.blocks[id as int],
                None => id >= self@.blocks.len(),
            },
    {
        if id < self.blocks.len() {
            Some(&self.blocks[id])
        } else {
            None
        }
    }

    /// The overlay `id`.
    pub fn get_overlay(&self, id: OverlayId) -> (overlay: Option<&Overlay>)
        ensures
            match overlay {
                Some(o) => id < self@.overlays.len() && *o == self@.overlays[id as int],
                None => id >= self@.overlays.len(),
            },
    {
        if id < self.overlays.len() {
            Some(&self.overlays[id])
        } else {
            None
        }
    }

    /// The type of the variable `id`.
    pub fn get_variable_type(&self, id: VarId) -> (ty: Option<&Type>)
        ensures
            match ty {
                Some(t) => id < self@.variables.len() && *t == self@.variables[id as int],
                None => id >= self@.variables.len(),
            },
    {
        if id < self.variables.len() {
            Some(&self.variables[id])
        } else {
            None
        }
    }

    /// Adds a declaration and binds its name to it in the innermost frame.
    pub fn add_decl(&mut self, decl: Decl) -> (id: DeclId)
        ensures
            final(self)@ == old(self)@.add_decl(decl@),
            id == old(self)@.decls.len(),
    {
        let name = decl.name_to_vec();
        let id: usize = self.decls.len();
        self.decls.push(decl);
        match self.nested.pop() {
            Some(mut frame) => {
                proof {
                    lemma_frames_top(old(self).root, old(self).nested@, frame);
                }
                frame.bring(name, id);
                proof {
                    lemma_frames_top(old(self).root, old(self).nested@, frame);
                }
                self.nested.push(frame);
                assert(self.nested@ =~= old(self).nested@.drop_last().push(frame));
            },
            None => {
                self.root.bring(name, id);
                proof {
                    lemma_frames_root(old(self).root, self.root);
                }
            },
        }
        assert(self@ =~= old(self)@.add_decl(decl@));
        id
    }

    /// Adds a declaration and reserves its name in the innermost frame. Returns
    /// the declaration that the name was already reserved for there, if any.
    pub fn add_predecl(&mut self, decl: Decl) -> (previous: Option<DeclId>)
        ensures
            final(self)@ == old(self)@.add_predecl(decl@),
            previous == lookup(old(self)@.top().predecls, name_bytes(decl@.name())),
    {
        let name = decl.name_to_vec();
        let id: usize = self.decls.len();
        self.decls.push(decl);
        let previous;
        match self.nested.pop() {
            Some(mut frame) => {
                proof {
                    lemma_frames_top(old(self).root, old(self).nested@, frame);
                }
                previous = frame.predecls.insert(name, id);
                proof {
                    lemma_frames_top(old(self).root, old(self).nested@, frame);
                }
                self.nested.push(frame);
                assert(self.nested@ =~= old(self).nested@.drop_last().push(frame));
            },
            None => {
                proof {
                    lemma_frames_root(old(self).root, old(self).root);
                }
                previous = self.root.predecls.insert(name, id);
                proof {
                    lemma_frames_root(old(self).root, self.root);
                }
            },
        }
        assert(self@ =~= old(self)@.add_predecl(decl@));
        previous
    }

    /// Turns the name reserved as `name` in the innermost frame into a command
    /// of that frame, and returns its declaration. Does nothing if the name
    /// is not reserved there.
    pub fn merge_predecl(&mut self, name: &[u8]) -> (merged: Option<DeclId>)
        ensures
            final(self)@ == old(self)@.merge_predecl(name@),
            merged == lookup(old(self)@.top().predecls, name@),
    {
        let merged;
        match self.nested.pop() {
            Some(mut frame) => {
                proof {
                    lemma_frames_top(old(self).root, old(self).nested@, frame);
                }
                merged = frame.predecls.remove(name);
                match merged {
                    Some(id) => {
                        frame.bring(to_vec(name), id);
                    },
                    None => {
                        assert(frame@ =~= old(self)@.top());
                    },
                }
                proof {
                    lemma_frames_top(old(self).root, old(self).nested@, frame);
                }
                self.nested.push(frame);
                assert(self.nested@ =~= old(self).nested@.drop_last().push(frame));
            },
            None => {
                proof {
                    lemma_frames_root(old(self).root, old(self).root);
                }
                merged = self.root.predecls.remove(name);
                match merged {
                    Some(id) => {
                        self.root.bring(to_vec(name), id);
                    },
                    None => {
                        assert(self.root@ =~= old(self)@.top());
                    },
                }
                proof {
                    lemma_frames_root(old(self).root, self.root);
                }
            },
        }
        assert(self@ =~= old(self)@.merge_predecl(name@));
        merged
    }

    /// Puts `decl` in the place of the declaration `id`. The id, and every
    /// name bound to it, now stand for `decl`.
    pub fn replace_decl(&mut self, id: DeclId, decl: Decl) -> (replaced: bool)
        ensures
            final(self)@ == old(self)@.replace_decl(id, decl@),
            replaced == (id < old(self)@.decls.len()),
    {
        if id < self.decls.len() {
            self.decls.set(id, decl);
            assert(self@ =~= old(self)@.replace_decl(id, decl@));
            true
        } else {
            false
        }
    }

    /// Adds a block.
    pub fn add_block(&mut self, block: Block) -> (id: BlockId)
        ensures
            final(self)@ == old(self)@.add_block(block),
            id == old(self)@.blocks.len(),
    {
        let id: usize = self.blocks.len();
        self.blocks.push(block);
        assert(self@ =~= old(self)@.add_block(block));
        id
    }

    /// Adds an overlay and binds `name` to it in the innermost frame.
    pub fn add_overlay(&mut self, name: &[u8], overlay: Overlay) -> (id: OverlayId)
        ensures
            final(self)@ == old(self)@.add_overlay(name@, overlay),
            id == old(self)@.overlays.len(),
    {
        let id: usize = self.overlays.len();
        self.overlays.push(overlay);
        match self.nested.pop() {
            Some(mut frame) => {
                proof {
                    lemma_frames_top(old(self).root, old(self).nested@, frame);
                }
                frame.overlays.insert(to_vec(name), id);
                proof {
                    lemma_frames_top(old(self).root, old(self).nested@, frame);
                }
                self.nested.push(frame);
                assert(self.nested@ =~= old(self).nested@.drop_last().push(frame));
            },
            None => {
                proof {
                    lemma_frames_root(old(self).root, old(self).root);
                }
                self.root.overlays.insert(to_vec(name), id);
                proof {
                    lemma_frames_root(old(self).root, self.root);
                }
            },
        }
        assert(self@ =~= old(self)@.add_overlay(name@, overlay));
        id
    }

    /// Makes `name` an alias for `replacement` in the innermost frame.
    pub fn add_alias(&mut self, name: Vec<u8>, replacement: Vec<Span>)
        ensures
            final(self)@ == old(self)@.add_alias(name@, replacement@),
    {
        let id: usize = self.aliases.len();
        self.aliases.push(replacement);
        match self.nested.pop() {
            Some(mut frame) => {
                proof {
                    lemma_frames_top(old(self).root, old(self).nested@, frame);
                }
                frame.aliases.insert(name, id);
                proof {
                    lemma_frames_top(old(self).root, old(self).nested@, frame);
                }
                self.nested.push(frame);
                assert(self.nested@ =~= old(self).nested@.drop_last().push(frame));
            },
            None => {
                proof {
                    lemma_frames_root(old(self).root, old(self).root);
                }
                self.root.aliases.insert(name, id);
                proof {
                    lemma_frames_root(old(self).root, self.root);
                }
            },
        }
        assert(self@ =~= old(self)@.add_alias(name@, replacement@));
    }

    /// Adds a variable of type `ty` and binds `name` to it in the innermost
    /// frame.
    pub fn add_variable(&mut self, name: Vec<u8>, ty: Type) -> (id: VarId)
        ensures
            final(self)@ == old(self)@.add_variable(name@, ty),
            id == old(self)@.variables.len(),
    {
        let id: usize = self.variables.len();
        self.variables.push(ty);
        match self.nested.pop() {
            Some(mut frame) => {
                proof {
                    lemma_frames_top(old(self).root, old(self).nested@, frame);
                }
                frame.variables.insert(name, id);
                proof {
                    lemma_frames_top(old(self).root, old(self).nested@, frame);
                }
                self.nested.push(frame);
                assert(self.nested@ =~= old(self).nested@.drop_last().push(frame));
            },
            None => {
                proof {
                    lemma_frames_root(old(self).root, old(self).root);
                }
                self.root.variables.insert(name, id);
                proof {
                    lemma_frames_root(old(self).root, self.root);
                }
            },
        }
        assert(self@ =~= old(self)@.add_variable(name@, ty));
        id
    }

    /// Gives the variable `id` the type `ty`. Does nothing if there is no
    /// such variable.
    pub fn set_variable_type(&mut self, id: VarId, ty: Type)
        ensures
            final(self)@ == old(self)@.set_variable_type(id, ty),
    {
        if id < self.variables.len() {
            self.variables.set(id, ty);
            assert(self@ =~= old(self)@.set_variable_type(id, ty));
        }
    }

    /// Brings the commands of `list` into the innermost frame under their
    /// names. A name that was hidden there is visible again.
    pub fn use_decls(&mut self, list: Vec<(Vec<u8>, DeclId)>)
        ensures
            final(self)@ == old(self)@.use_decls(named(list@)),
    {
        let mut i: usize = 0;
        proof {
            self.lemma_rooted();
            assert(named(list@).take(0) =~= Seq::<(Seq<u8>, usize)>::empty());
            assert(self@ =~= old(self)@.use_decls(named(list@).take(0)));
        }
        while i < list.len()
            invariant
                i <= list@.len(),
                self@ == old(self)@.use_decls(named(list@).take(i as int)),
                self@.scopes.len() >= 1,
            decreases list@.len() - i,
        {
            let ghost before = self@;
            let ghost taken = named(list@).take(i + 1);
            assert(taken.drop_last() =~= named(list@).take(i as int));
            assert(taken.last() == (list@[i as int].0@, list@[i as int].1));
            let name = to_vec(list[i].0.as_slice());
            let id = list[i].1;
            let ghost nested_before = self.nested@;
            let ghost root_before = self.root;
            match self.nested.pop() {
                Some(mut frame) => {
                    proof {
                        lemma_frames_top(root_before, nested_before, frame);
                    }
                    frame.bring(name, id);
                    proof {
                        lemma_frames_top(root_before, nested_before, frame);
                    }
                    self.nested.push(frame);
                    assert(self.nested@ =~= nested_before.drop_last().push(frame));
                },
                None => {
                    proof {
                        lemma_frames_root(root_before, root_before);
                    }
                    self.root.bring(name, id);
                    proof {
                        lemma_frames_root(root_before, self.root);
                    }
                },
            }
            assert(self@ =~= before.with_top(before.top().bring(name@, id)));
            assert(self@ =~= old(self)@.use_decls(taken));
            i += 1;
        }
        assert(named(list@).take(i as int) =~= named(list@));
    }

    /// Hides the names of `list` in the innermost frame: until a name is
    /// brought in or defined again, it stands for no command here or further
    /// out. No declaration is removed. Hiding goes by the name, not by the
    /// command: a command that is known under a second name, such as one
    /// with the name of its module before it, stays known under that one.
    pub fn hide_decls(&mut self, list: &Vec<(Vec<u8>, DeclId)>)
        ensures
            final(self)@ == old(self)@.hide_decls(named(list@)),
    {
        let mut i: usize = 0;
        proof {
            self.lemma_rooted();
            assert(named(list@).take(0) =~= Seq::<(Seq<u8>, usize)>::empty());
            assert(self@ =~= old(self)@.hide_decls(named(list@).take(0)));
        }
        while i < list.len()
            invariant
                i <= list@.len(),
                self@ == old(self)@.hide_decls(named(list@).take(i as int)),
                self@.scopes.len() >= 1,
            decreases list@.len() - i,
        {
            let ghost before = self@;
            let ghost taken = named(list@).take(i + 1);
            assert(taken.drop_last() =~= named(list@).take(i as int));
            assert(taken.last() == (list@[i as int].0@, list@[i as int].1));
            let name = to_vec(list[i].0.as_slice());
            let ghost nested_before = self.nested@;
            let ghost root_before = self.root;
            match self.nested.pop() {
                Some(mut frame) => {
                    proof {
                        lemma_frames_top(root_before, nested_before, frame);
                    }
                    frame.hidden.insert(name);
                    proof {
                        lemma_frames_top(root_before, nested_before, frame);
                    }
                    self.nested.push(frame);
                    assert(self.nested@ =~= nested_before.drop_last().push(frame));
                },
                None => {
                    proof {
                        lemma_frames_root(root_before, root_before);
                    }
                    self.root.hidden.insert(name);
                    proof {
                        lemma_frames_root(root_before, self.root);
                    }
                },
            }
            assert(self@ =~= before.with_top(
                ScopeView { hidden: before.top().hidden.insert(name@), ..before.top() },
            ));
            assert(self@ =~= old(self)@.hide_decls(taken));
            i += 1;
        }
        assert(named(list@).take(i as int) =~= named(list@));
    }

    /// Notes that the list of known plugins has changed.
    pub fn mark_plugins_file_dirty(&mut self)
        ensures
            final(self)@ == old(self)@.mark_plugins_file_dirty(),
    {
        self.plugins_dirty = true;
    }

    /// Whether the list of known plugins has changed.
    pub fn plugins_file_dirty(&self) -> (dirty: bool)
        ensures
            dirty == self@.plugins_dirty,
    {
        self.plugins_dirty
    }
}

} // verus!

//! The working set as a mathematical value, and its operations.
//!
//! The contracts of [`crate::working_set::WorkingSet`] and of the keyword
//! parsers are stated over these definitions.

use vstd::prelude::*;
use crate::ast::{Block, DeclId, OverlayId, Type, VarId};
use crate::decl::{name_bytes, DeclView};
use crate::overlay::{Bindings, Overlay};
use crate::span::Span;

verus! {

/// A file that was added to the working set: its name and where its bytes
/// stand in the file buffer.
#[derive(Debug, Clone, PartialEq, Eq)]
pub struct FileEntry {
    pub name: String,
    pub span: Span,
}

/// One frame of the scope stack: the names that a nesting level introduces.
#[verifier::ext_equal]
pub struct ScopeView {
    /// Commands by name.
    pub decls: Map<Seq<u8>, DeclId>,
    /// Names reserved for commands whose definition is still being parsed.
    pub predecls: Map<Seq<u8>, DeclId>,
    /// Variables by name.
    pub variables: Map<Seq<u8>, VarId>,
    /// Aliases by name: indices into the alias list.
    pub aliases: Map<Seq<u8>, usize>,
    /// Overlays by name.
    pub overlays: Map<Seq<u8>, OverlayId>,
    /// Command names that are shadowed from this level outward.
    pub hidden: Set<Seq<u8>>,
}

impl ScopeView {
    /// The frame that introduces nothing.
    pub open spec fn empty() -> ScopeView {
        ScopeView {
            decls: Map::empty(),
            predecls: Map::empty(),
            variables: Map::empty(),
            aliases: Map::empty(),
            overlays: Map::empty(),
            hidden: Set::empty(),
        }
    }

    /// The frame after `name` was introduced for the command `id`: the name
    /// is bound, and no longer hidden at this level.
    pub open spec fn bring(self, name: Seq<u8>, id: DeclId) -> ScopeView {
        ScopeView { decls: self.decls.insert(name, id), hidden: self.hidden.remove(name), ..self }
    }

    /// The frame after each entry of `list` was introduced, in order.
    pub open spec fn bring_all(self, list: Bindings) -> ScopeView
        decreases list.len(),
    {
        if list.len() == 0 {
            self
        } else {
            self.bring_all(list.drop_last()).bring(list.last().0, list.last().1)
        }
    }

    /// The frame after the name of each entry of `list` was hidden.
    pub open spec fn hide_all(self, list: Bindings) -> ScopeView
        decreases list.len(),
    {
        if list.len() == 0 {
            self
        } else {
            let earlier = self.hide_all(list.drop_last());
            ScopeView { hidden: earlier.hidden.insert(list.last().0), ..earlier }
        }
    }

    /// The frame after the name reserved as `name`, if any, became a command
    /// of this level.
    pub open spec fn settle(self, name: Seq<u8>) -> ScopeView {
        if self.predecls.dom().contains(name) {
            ScopeView { predecls: self.predecls.remove(name), ..self }.bring(
                name,
                self.predecls[name],
            )
        } else {
            self
        }
    }
}

/// The command that `name` stands for in `scopes`, the innermost frame last,
/// where `hidden` says whether a frame further in hides the name.
///
/// A frame's reserved names come first: a hidden name does not shadow a
/// definition that is under way. A bound name counts only if neither its own
/// frame nor one further in hides it.
pub open spec fn find_decl_in(scopes: Seq<ScopeView>, name: Seq<u8>, hidden: bool) -> Option<
    DeclId,
>
    decreases scopes.len(),
{
    if scopes.len() == 0 {
        None
    } else {
        let frame = scopes.last();
        let hidden_here = hidden || frame.hidden.contains(name);
        if frame.predecls.dom().contains(name) {
            Some(frame.predecls[name])
        } else if frame.decls.dom().contains(name) && !hidden_here {
            Some(frame.decls[name])
        } else {
            find_decl_in(scopes.drop_last(), name, hidden_here)
        }
    }
}

/// The tables of a frame that are searched innermost frame first, with
/// nothing that hides.
pub enum TableKind {
    Variables,
    Aliases,
    Overlays,
}

impl ScopeView {
    /// The table of the given kind.
    pub open spec fn table(self, kind: TableKind) -> Map<Seq<u8>, usize> {
        match kind {
            TableKind::Variables => self.variables,
            TableKind::Aliases => self.aliases,
            TableKind::Overlays => self.overlays,
        }
    }
}

/// What `name` stands for in the tables of one kind: the binding of the
/// innermost frame that has one.
pub open spec fn find_in(scopes: Seq<ScopeView>, kind: TableKind, name: Seq<u8>) -> Option<usize>
    decreases scopes.len(),
{
    if scopes.len() == 0 {
        None
    } else if scopes.last().table(kind).dom().contains(name) {
        Some(scopes.last().table(kind)[name])
    } else {
        find_in(scopes.drop_last(), kind, name)
    }
}

/// Everything that a parsing session has accumulated.
#[verifier::ext_equal]
pub struct WorkingSetView {
    /// The file buffer: the bytes of every file added, one after the other.
    pub contents: Seq<u8>,
    /// The files added, in order.
    pub files: Seq<FileEntry>,
    /// The declarations, by id.
    pub decls: Seq<DeclView>,
    /// The blocks, by id.
    pub blocks: Seq<Block>,
    /// The overlays, by id.
    pub overlays: Seq<Overlay>,
    /// The types of the variables, by id.
    pub variables: Seq<Type>,
    /// The replacements of the aliases.
    pub aliases: Seq<Seq<Span>>,
    /// The scope stack, the outermost frame first.
    pub scopes: Seq<ScopeView>,
    /// Whether the list of known plugins has changed.
    pub plugins_dirty: bool,
}

impl WorkingSetView {
    /// The working set of a fresh session: nothing but one empty frame.
    pub open spec fn empty() -> WorkingSetView {
        WorkingSetView {
            contents: Seq::empty(),
            files: Seq::empty(),
            decls: Seq::empty(),
            blocks: Seq::empty(),
            overlays: Seq::empty(),
            variables: Seq::empty(),
            aliases: Seq::empty(),
            scopes: seq![ScopeView::empty()],
            plugins_dirty: false,
        }
    }

    /// Whether the scope stack has its outermost frame, as that of any session
    /// has.
    pub open spec fn is_rooted(self) -> bool {
        self.scopes.len() >= 1
    }

    /// What holds of the working set of any session: the outermost frame is
    /// there, and every list is short enough for its ids to be machine
    /// numbers.
    pub open spec fn is_sound(self) -> bool {
        &&& self.is_rooted()
        &&& self.contents.len() <= usize::MAX
        &&& self.files.len() <= usize::MAX
        &&& self.decls.len() <= usize::MAX
        &&& self.blocks.len() <= usize::MAX
        &&& self.overlays.len() <= usize::MAX
        &&& self.variables.len() <= usize::MAX
        &&& self.aliases.len() <= usize::MAX
    }

    /// How many scopes were entered and not yet left.
    pub open spec fn depth(self) -> int {
        self.scopes.len() - 1
    }

    /// The innermost frame.
    pub open spec fn top(self) -> ScopeView {
        self.scopes.last()
    }

    /// The working set with `frame` in the place of the innermost frame.
    pub open spec fn with_top(self, frame: ScopeView) -> WorkingSetView {
        WorkingSetView { scopes: self.scopes.update(self.scopes.len() - 1, frame), ..self }
    }

    /// The working set after a scope was entered.
    pub open spec fn enter_scope(self) -> WorkingSetView {
        WorkingSetView { scopes: self.scopes.push(ScopeView::empty()), ..self }
    }

    /// The working set after the innermost scope was left. The outermost
    /// frame is never left.
    pub open spec fn exit_scope(self) -> WorkingSetView {
        if self.scopes.len() > 1 {
            WorkingSetView { scopes: self.scopes.drop_last(), ..self }
        } else {
            self
        }
    }

    /// Where the next file will start in the file buffer.
    pub open spec fn next_span_start(self) -> int {
        self.contents.len() as int
    }

    /// The working set after a file was added.
    pub open spec fn add_file(self, name: String, bytes: Seq<u8>) -> WorkingSetView
        recommends
            self.contents.len() + bytes.len() <= usize::MAX,
    {
        WorkingSetView {
            contents: self.contents + bytes,
            files: self.files.push(
                FileEntry {
                    name,
                    span: Span {
                        start: self.contents.len() as usize,
                        end: (self.contents.len() + bytes.len()) as usize,
                    },
                },
            ),
            ..self
        }
    }

    /// The bytes that `span` covers, and none if it does not lie in the
    /// file buffer.
    pub open spec fn span_contents(self, span: Span) -> Seq<u8> {
        if span.start <= span.end <= self.contents.len() {
            self.contents.subrange(span.start as int, span.end as int)
        } else {
            Seq::empty()
        }
    }

    /// The command that `name` stands for.
    pub open spec fn find_decl(self, name: Seq<u8>) -> Option<DeclId> {
        find_decl_in(self.scopes, name, false)
    }

    /// The overlay that `name` stands for.
    pub open spec fn find_overlay(self, name: Seq<u8>) -> Option<OverlayId> {
        find_in(self.scopes, TableKind::Overlays, name)
    }

    /// The variable that `name` stands for.
    pub open spec fn find_variable(self, name: Seq<u8>) -> Option<VarId> {
        find_in(self.scopes, TableKind::Variables, name)
    }

    /// The tokens that the alias `name` stands for.
    pub open spec fn find_alias(self, name: Seq<u8>) -> Option<Seq<Span>> {
        match find_in(self.scopes, TableKind::Aliases, name) {
            Some(id) => if id < self.aliases.len() {
                Some(self.aliases[id as int])
            } else {
                None
            },
            None => None,
        }
    }

    /// The working set after `decl` was added and bound to its name in the
    /// innermost frame.
    pub open spec fn add_decl(self, decl: DeclView) -> WorkingSetView {
        WorkingSetView { decls: self.decls.push(decl), ..self }.with_top(
            self.top().bring(name_bytes(decl.name()), self.decls.len() as usize),
        )
    }

    /// The working set after `decl` was added and its name reserved in the
    /// innermost frame.
    pub open spec fn add_predecl(self, decl: DeclView) -> WorkingSetView {
        WorkingSetView { decls: self.decls.push(decl), ..self }.with_top(
            ScopeView {
                predecls: self.top().predecls.insert(
                    name_bytes(decl.name()),
                    self.decls.len() as usize,
                ),
                ..self.top()
            },
        )
    }

    /// The working set after the name reserved as `name` in the innermost
    /// frame, if any, became a command there.
    pub open spec fn merge_predecl(self, name: Seq<u8>) -> WorkingSetView {
        self.with_top(self.top().settle(name))
    }

    /// The working set with `decl` in the place of the declaration `id`, if
    /// there is one.
    pub open spec fn replace_decl(self, id: DeclId, decl: DeclView) -> WorkingSetView {
        if id < self.decls.len() {
            WorkingSetView { decls: self.decls.update(id as int, decl), ..self }
        } else {
            self
        }
    }

    /// The working set after `block` was added.
    pub open spec fn add_block(self, block: Block) -> WorkingSetView {
        WorkingSetView { blocks: self.blocks.push(block), ..self }
    }

    /// The working set after `overlay` was added and bound to `name` in the
    /// innermost frame.
    pub open spec fn add_overlay(self, name: Seq<u8>, overlay: Overlay) -> WorkingSetView {
        WorkingSetView { overlays: self.overlays.push(overlay), ..self }.with_top(
            ScopeView {
                overlays: self.top().overlays.insert(name, self.overlays.len() as usize),
                ..self.top()
            },
        )
    }

    /// The working set after the commands of `list` were brought into the
    /// innermost frame under their names.
    pub open spec fn use_decls(self, list: Bindings) -> WorkingSetView {
        self.with_top(self.top().bring_all(list))
    }

    /// The working set after the names of `list` were hidden in the innermost
    /// frame. Hiding goes by the name: a command that is known under a second
    /// name stays known under that one.
    pub open spec fn hide_decls(self, list: Bindings) -> WorkingSetView {
        self.with_top(self.top().hide_all(list))
    }

    /// The working set after `name` became an alias for `replacement` in the
    /// innermost frame.
    pub open spec fn add_alias(self, name: Seq<u8>, replacement: Seq<Span>) -> WorkingSetView {
        WorkingSetView { aliases: self.aliases.push(replacement), ..self }.with_top(
            ScopeView {
                aliases: self.top().aliases.insert(name, self.aliases.len() as usize),
                ..self.top()
            },
        )
    }

    /// The working set after a variable of type `ty` was added and bound to
    /// `name` in the innermost frame.
    pub open spec fn add_variable(self, name: Seq<u8>, ty: Type) -> WorkingSetView {
        WorkingSetView { variables: self.variables.push(ty), ..self }.with_top(
            ScopeView {
                variables: self.top().variables.insert(name, self.variables.len() as usize),
                ..self.top()
            },
        )
    }

    /// The working set with `ty` as the type of the variable `id`, if there
    /// is one.
    pub open spec fn set_variable_type(self, id: VarId, ty: Type) -> WorkingSetView {
        if id < self.variables.len() {
            WorkingSetView { variables: self.variables.update(id as int, ty), ..self }
        } else {
            self
        }
    }

    /// The working set with the list of known plugins marked as changed.
    pub open spec fn mark_plugins_file_dirty(self) -> WorkingSetView {
        WorkingSetView { plugins_dirty: true, ..self }
    }

    /// Whether every id that `self` has handed out stands for the same
    /// file, block, overlay, variable or alias in `later`, and for a
    /// declaration there too.
    pub open spec fn keeps_ids_in(self, later: WorkingSetView) -> bool {
        &&& self.contents.is_prefix_of(later.contents)
        &&& self.files.is_prefix_of(later.files)
        &&& self.decls.len() <= later.decls.len()
        &&& self.blocks.is_prefix_of(later.blocks)
        &&& self.overlays.is_prefix_of(later.overlays)
        &&& self.variables.len() <= later.variables.len()
        &&& self.aliases.is_prefix_of(later.aliases)
    }
}

} // verus!

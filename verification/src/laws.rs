//! What holds of the working set and of the keyword parsers whatever they
//! are given.

use vstd::prelude::*;
use crate::alias::with_alias;
use crate::bytes::without_double_quotes;
use crate::decl::name_bytes;
use crate::def::{bound_definition, closed_definition, DefPhase, DefProgress, DefState};
use crate::import::selected;
use crate::model::{find_decl_in, ScopeView, TableKind, WorkingSetView};
use crate::overlay::{Bindings, OverlayView};
use crate::request::Parsed;
use crate::span::Span;

verus! {

/// Whether `name` is one of the names of `list`.
pub open spec fn is_listed(list: Bindings, name: Seq<u8>) -> bool {
    exists|i: int| 0 <= i < list.len() && (#[trigger] list[i]).0 == name
}

/// Merging a reserved name is idempotent: once a name was merged, to merge
/// it again changes nothing.
pub proof fn lemma_merge_predecl_is_idempotent(working_set: WorkingSetView, name: Seq<u8>)
    requires
        working_set.is_rooted(),
    ensures
        working_set.merge_predecl(name).merge_predecl(name) == working_set.merge_predecl(name),
{
    let once = working_set.merge_predecl(name);
    assert(!once.top().predecls.dom().contains(name));
    assert(once.top().settle(name) == once.top());
    assert(once.merge_predecl(name) =~= once);
}

/// A reserved name is merged into the innermost frame, and into no frame
/// around it.
pub proof fn lemma_merge_predecl_stays_in_its_frame(working_set: WorkingSetView, name: Seq<u8>)
    requires
        working_set.is_rooted(),
    ensures
        working_set.merge_predecl(name).scopes.len() == working_set.scopes.len(),
        working_set.merge_predecl(name).scopes.drop_last() == working_set.scopes.drop_last(),
        working_set.merge_predecl(name).decls == working_set.decls,
{
    assert(working_set.merge_predecl(name).scopes.drop_last() =~= working_set.scopes.drop_last());
}

/// After a definition was closed, to merge its name again changes nothing.
pub proof fn lemma_closed_definition_is_merged(working_set: WorkingSetView, name: String)
    requires
        working_set.is_rooted(),
    ensures
        closed_definition(working_set, Some(name)).merge_predecl(name_bytes(name@))
            == closed_definition(working_set, Some(name)),
{
    lemma_merge_predecl_is_idempotent(working_set.exit_scope(), name_bytes(name@));
}

/// Where the second pass over a definition ends after its parameter list or
/// its body, the name of the definition is merged: to merge it again changes
/// nothing.
pub proof fn lemma_merge_after_def_is_idempotent(
    state: DefState,
    before: WorkingSetView,
    parsed: Parsed,
    after: WorkingSetView,
    progress: DefProgress,
)
    requires
        before.is_rooted(),
        state.steps(before, parsed, after, progress),
        state.phase != DefPhase::Name,
        progress is Done,
        state.name is Some,
    ensures
        after.merge_predecl(name_bytes(state.name->0@)) == after,
{
    let name = state.name->0;
    if state.phase == DefPhase::Body {
        match (state.name, state.signature, parsed.expression.spec_as_block()) {
            (Some(n), Some(signature), Some(block_id)) => {
                match before.find_decl(name_bytes(n@)) {
                    Some(id) => {
                        lemma_closed_definition_is_merged(
                            bound_definition(before, id, n@, signature@, block_id),
                            name,
                        );
                    },
                    None => {
                        lemma_closed_definition_is_merged(before, name);
                    },
                }
            },
            _ => {
                lemma_closed_definition_is_merged(before, name);
            },
        }
    } else {
        lemma_closed_definition_is_merged(before, name);
    }
}

/// An alias that was added is found under its name, with its replacement.
pub proof fn lemma_alias_is_found(
    working_set: WorkingSetView,
    name: Seq<u8>,
    replacement: Seq<Span>,
)
    requires
        working_set.is_sound(),
    ensures
        working_set.add_alias(name, replacement).find_alias(name) == Some(replacement),
{
    let after = working_set.add_alias(name, replacement);
    assert(after.scopes.last().table(TableKind::Aliases).dom().contains(name));
}

/// After `alias name = replacement...` was parsed, the name, without its
/// double quotes, stands for the tokens of the replacement.
pub proof fn lemma_alias_statement_is_found(working_set: WorkingSetView, spans: Seq<Span>)
    requires
        working_set.is_sound(),
        spans.len() >= 4,
    ensures
        with_alias(working_set, spans).find_alias(
            without_double_quotes(working_set.span_contents(spans[1])),
        ) == Some(spans.subrange(3, spans.len() as int)),
{
    lemma_alias_is_found(
        working_set,
        without_double_quotes(working_set.span_contents(spans[1])),
        spans.subrange(3, spans.len() as int),
    );
}

/// The command that the last entry for `name` in `list` holds.
pub open spec fn last_bound(list: Bindings, name: Seq<u8>) -> Option<usize>
    decreases list.len(),
{
    if list.len() == 0 {
        None
    } else if list.last().0 == name {
        Some(list.last().1)
    } else {
        last_bound(list.drop_last(), name)
    }
}

proof fn lemma_bring_all(frame: ScopeView, list: Bindings, name: Seq<u8>)
    ensures
        is_listed(list, name) == (last_bound(list, name) is Some),
        is_listed(list, name) ==> frame.bring_all(list).decls[name] == last_bound(list, name)->0,
        frame.bring_all(list).predecls == frame.predecls,
        frame.bring_all(list).variables == frame.variables,
        frame.bring_all(list).aliases == frame.aliases,
        frame.bring_all(list).overlays == frame.overlays,
        is_listed(list, name) ==> frame.bring_all(list).decls.dom().contains(name)
            && !frame.bring_all(list).hidden.contains(name),
        !is_listed(list, name) ==> {
            &&& frame.bring_all(list).decls.dom().contains(name) == frame.decls.dom().contains(
                name,
            )
            &&& frame.decls.dom().contains(name) ==> frame.bring_all(list).decls[name]
                == frame.decls[name]
            &&& frame.bring_all(list).hidden.contains(name) == frame.hidden.contains(name)
        },
    decreases list.len(),
{
    if list.len() > 0 {
        lemma_bring_all(frame, list.drop_last(), name);
        if is_listed(list, name) {
            let i = choose|i: int| 0 <= i < list.len() && (#[trigger] list[i]).0 == name;
            if i < list.len() - 1 {
                assert(list.drop_last()[i].0 == name);
            }
        }
        if is_listed(list.drop_last(), name) {
            let i = choose|i: int|
                0 <= i < list.drop_last().len() && (#[trigger] list.drop_last()[i]).0 == name;
            assert(list[i].0 == name);
        }
        if list.last().0 == name {
            assert(list[list.len() - 1].0 == name);
        }
    }
}

proof fn lemma_hide_all(frame: ScopeView, list: Bindings, name: Seq<u8>)
    ensures
        frame.hide_all(list).predecls == frame.predecls,
        frame.hide_all(list).decls == frame.decls,
        frame.hide_all(list).variables == frame.variables,
        frame.hide_all(list).aliases == frame.aliases,
        frame.hide_all(list).overlays == frame.overlays,
        frame.hide_all(list).hidden.contains(name) == (frame.hidden.contains(name) || is_listed(
            list,
            name,
        )),
    decreases list.len(),
{
    if list.len() > 0 {
        lemma_hide_all(frame, list.drop_last(), name);
        if is_listed(list, name) {
            let i = choose|i: int| 0 <= i < list.len() && (#[trigger] list[i]).0 == name;
            if i < list.len() - 1 {
                assert(list.drop_last()[i].0 == name);
            }
        }
        if is_listed(list.drop_last(), name) {
            let i = choose|i: int|
                0 <= i < list.drop_last().len() && (#[trigger] list.drop_last()[i]).0 == name;
            assert(list[i].0 == name);
        }
        if list.last().0 == name {
            assert(list[list.len() - 1].0 == name);
        }
    }
}

proof fn lemma_hidden_finds_no_more(scopes: Seq<ScopeView>, name: Seq<u8>)
    ensures
        find_decl_in(scopes, name, false) is None ==> find_decl_in(scopes, name, true) is None,
    decreases scopes.len(),
{
    if scopes.len() > 0 {
        lemma_hidden_finds_no_more(scopes.drop_last(), name);
    }
}

/// Whether a frame holds a reservation of `name`.
pub open spec fn is_reserved(scopes: Seq<ScopeView>, name: Seq<u8>) -> bool {
    exists|i: int| 0 <= i < scopes.len() && (#[trigger] scopes[i]).predecls.dom().contains(name)
}

/// A hidden name stands for what it would stand for if every frame hid it:
/// for the innermost reservation of the name, and for nothing if the name is
/// not reserved.
pub proof fn lemma_hidden_name_is_not_found(
    working_set: WorkingSetView,
    list: Bindings,
    name: Seq<u8>,
)
    requires
        working_set.is_rooted(),
        is_listed(list, name),
    ensures
        working_set.hide_decls(list).find_decl(name) == find_decl_in(
            working_set.scopes,
            name,
            true,
        ),
        !is_reserved(working_set.scopes, name) ==> working_set.hide_decls(list).find_decl(name)
            is None,
{
    let after = working_set.hide_decls(list);
    lemma_hide_all(working_set.top(), list, name);
    assert(after.scopes.drop_last() =~= working_set.scopes.drop_last());
    if !is_reserved(working_set.scopes, name) {
        lemma_unreserved_hidden_name(working_set.scopes, name);
    }
}

proof fn lemma_unreserved_hidden_name(scopes: Seq<ScopeView>, name: Seq<u8>)
    requires
        !is_reserved(scopes, name),
    ensures
        find_decl_in(scopes, name, true) is None,
    decreases scopes.len(),
{
    if scopes.len() > 0 {
        assert(!scopes[scopes.len() - 1].predecls.dom().contains(name));
        let outer = scopes.drop_last();
        assert(!is_reserved(outer, name)) by {
            if is_reserved(outer, name) {
                let i = choose|i: int|
                    0 <= i < outer.len() && (#[trigger] outer[i]).predecls.dom().contains(name);
                assert(scopes[i].predecls.dom().contains(name));
            }
        }
        lemma_unreserved_hidden_name(scopes.drop_last(), name);
    }
}

/// To hide names removes nothing: every declaration and every binding of a
/// name is still there.
pub proof fn lemma_hide_removes_nothing(working_set: WorkingSetView, list: Bindings)
    requires
        working_set.is_rooted(),
    ensures
        working_set.hide_decls(list).decls == working_set.decls,
        working_set.hide_decls(list).scopes.len() == working_set.scopes.len(),
        working_set.hide_decls(list).top().decls == working_set.top().decls,
        working_set.hide_decls(list).top().predecls == working_set.top().predecls,
        working_set.hide_decls(list).scopes.drop_last() == working_set.scopes.drop_last(),
{
    lemma_hide_all(working_set.top(), list, Seq::empty());
    assert(working_set.hide_decls(list).scopes.drop_last() =~= working_set.scopes.drop_last());
}

/// A name that is brought in stands for the command it was brought in for:
/// that of the last entry for the name.
pub proof fn lemma_used_name_is_found(working_set: WorkingSetView, list: Bindings, name: Seq<u8>)
    requires
        working_set.is_rooted(),
        is_listed(list, name),
        !working_set.top().predecls.dom().contains(name),
    ensures
        working_set.use_decls(list).find_decl(name) == last_bound(list, name),
        last_bound(list, name) is Some,
{
    lemma_bring_all(working_set.top(), list, name);
}

/// Import round trip: to bring names in and then to hide the same names
/// leaves every name standing for what it stood for before, provided that
/// none of the names stood for a command before.
pub proof fn lemma_use_then_hide(working_set: WorkingSetView, list: Bindings, name: Seq<u8>)
    requires
        working_set.is_rooted(),
        forall|i: int|
            0 <= i < list.len() ==> working_set.find_decl((#[trigger] list[i]).0) is None,
    ensures
        working_set.use_decls(list).hide_decls(list).find_decl(name) == working_set.find_decl(
            name,
        ),
{
    let used = working_set.use_decls(list);
    let after = used.hide_decls(list);
    let top = working_set.top();
    lemma_bring_all(top, list, name);
    lemma_hide_all(top.bring_all(list), list, name);
    assert(used.top() == top.bring_all(list));
    assert(after.top() == top.bring_all(list).hide_all(list));
    assert(after.scopes.drop_last() =~= working_set.scopes.drop_last());
    if is_listed(list, name) {
        let i = choose|i: int| 0 <= i < list.len() && (#[trigger] list[i]).0 == name;
        assert(working_set.find_decl(list[i].0) is None);
        lemma_hidden_finds_no_more(working_set.scopes.drop_last(), name);
    }
}

/// `use m` and then `hide m`, for a module `m`, leave every name standing
/// for what it stood for before, provided that none of the names of the
/// module's commands, with `m` before them, stood for a command before.
pub proof fn lemma_use_then_hide_module(
    working_set: WorkingSetView,
    overlay: OverlayView,
    head: Seq<u8>,
    name: Seq<u8>,
)
    requires
        working_set.is_rooted(),
        forall|i: int|
            0 <= i < overlay.decls.len() ==> working_set.find_decl(
                (#[trigger] selected(overlay, head, Seq::empty(), false, true)[i]).0,
            ) is None,
    ensures
        selected(overlay, head, Seq::empty(), true, true) == selected(
            overlay,
            head,
            Seq::empty(),
            false,
            true,
        ),
        working_set.use_decls(selected(overlay, head, Seq::empty(), false, true)).hide_decls(
            selected(overlay, head, Seq::empty(), true, true),
        ).find_decl(name) == working_set.find_decl(name),
{
    lemma_use_then_hide(working_set, selected(overlay, head, Seq::empty(), false, true), name);
}

} // verus!

//! `use` and `hide`: bringing the exports of a module into scope, and taking
//! names out of it.

use vstd::prelude::*;
use crate::ast::{
    call_statement, garbage_statement, Block, Call, DeclId, Expr, Expression, ImportPattern,
    ImportPatternHead, ImportPatternMember, Statement, Type,
};
use crate::bytes::{is_text, is_word, string_from_utf8, text_bytes, to_vec, with_head, word};
use crate::error::{first_error, or_error, ErrorView, ParseError};
use crate::model::WorkingSetView;
use crate::module_block::{
    parse_module_block, Lexed, ModuleBlockLex, ModuleBlockProgress, ModuleBlockState,
};
use crate::overlay::{binds, bound, headed, named, Bindings, Overlay, OverlayView};
use crate::request::{
    or_internal_error, or_unknown_state, part, part_to_vec, reports, reports_if, token, token_at,
    Parsed, Request, RequestView,
};
use crate::span::{covering, span, spans_to_vec, Span};
use crate::working_set::WorkingSet;

verus! {

/// Which of the two statements is parsed.
#[derive(Clone, Copy, Debug, PartialEq, Eq, Structural)]
pub enum ImportKind {
    Use,
    Hide,
}

impl ImportKind {
    /// The keyword of the statement.
    pub open spec fn keyword(self) -> Seq<u8> {
        match self {
            ImportKind::Use => word("use"),
            ImportKind::Hide => word("hide"),
        }
    }
}

/// A `use` or `hide` statement one of whose tokens is to be parsed as a
/// string by the caller. Only the error of the parsing is kept.
#[derive(Debug, PartialEq, Eq)]
pub struct ImportStrings {
    pub kind: ImportKind,
    /// The tokens of the statement, the keyword first.
    pub spans: Vec<Span>,
    /// Which token is to be parsed.
    pub index: usize,
    /// The first error so far.
    pub error: Option<ParseError>,
}

/// A `use` or `hide` statement whose tokens after the keyword are to be
/// parsed as an import pattern by the caller.
#[derive(Debug, PartialEq, Eq)]
pub struct ImportHead {
    pub kind: ImportKind,
    /// The tokens of the statement, the keyword first.
    pub spans: Vec<Span>,
    /// The first error so far.
    pub error: Option<ParseError>,
}

/// What a `use` knows of a module that it reads from a file.
#[derive(Debug, PartialEq, Eq)]
pub struct UseFile {
    /// The tokens of the statement, `use` first.
    pub spans: Vec<Span>,
    /// The name of the file, as the pattern gave it.
    pub filename: String,
    /// Where the head of the pattern stands.
    pub head_span: Span,
    /// The member selectors of the pattern.
    pub members: Vec<ImportPatternMember>,
    /// The first error so far.
    pub error: Option<ParseError>,
}

/// What the caller found at the path of a module file.
#[derive(Debug, PartialEq, Eq)]
pub enum ModuleFile {
    /// The path leads to no file.
    NotFound,
    /// The file has no name to call the module by, or cannot be read.
    Unreadable,
    /// The name of the file without its extension, and its bytes.
    Contents { stem: String, contents: Vec<u8> },
}

/// What a `use` knows of a module whose file it has read.
#[derive(Debug, PartialEq, Eq)]
pub struct UseModule {
    /// The tokens of the statement, `use` first.
    pub spans: Vec<Span>,
    /// The name of the module: that of the file without its extension.
    pub name: String,
    /// The member selectors of the pattern.
    pub members: Vec<ImportPatternMember>,
    /// The first error so far.
    pub error: Option<ParseError>,
}

/// A `use` whose module file is to be cut into pipelines by the caller.
#[derive(Debug, PartialEq, Eq)]
pub struct UseLex {
    pub module: UseModule,
    pub body: ModuleBlockLex,
}

/// A `use` one of whose module's statements waits for its caller.
#[derive(Debug, PartialEq, Eq)]
pub struct UseBody {
    pub module: UseModule,
    pub body: ModuleBlockState,
}

/// How far the parsing of a `use` or a `hide` statement has come.
#[derive(Debug, PartialEq, Eq)]
pub enum ImportProgress {
    /// The caller is to parse a token as a string.
    ParseString(ImportStrings),
    /// The caller is to parse the tokens after the keyword as an import
    /// pattern.
    ParsePattern(ImportHead),
    /// The caller is to find the file of the module, and to read it.
    ReadFile(UseFile),
    /// The caller is to cut the text of the module file into pipelines.
    Lex(UseLex),
    /// The caller is to parse what the state asks for and resume it.
    Parse(UseBody),
    /// The statement and the first error met.
    Done(Statement, Option<ParseError>),
}

impl ImportProgress {
    /// How many scopes the parser has entered and not yet left.
    pub open spec fn held_scopes(self) -> int {
        match self {
            ImportProgress::Lex(_) => 1,
            ImportProgress::Parse(state) => state.body.held_scopes(),
            _ => 0,
        }
    }

    /// Whether this is the answer to a statement that is given up: a garbage
    /// statement over all of `spans`, and `error` unless `earlier` is there.
    pub open spec fn is_given_up(
        self,
        spans: Seq<Span>,
        earlier: Option<ParseError>,
        error: ErrorView,
    ) -> bool {
        &&& self matches ImportProgress::Done(statement, reported)
        &&& statement.is_garbage(covering(spans))
        &&& reports(reported, earlier, error)
    }
}

/// Whether `progress` is how a `use` or a `hide` answers the tokens `spans`:
/// with two tokens or more, of which the first is the keyword, the second
/// token is asked for as a string; anything else is given up as an unknown
/// state.
pub open spec fn begins_import(
    kind: ImportKind,
    working_set: WorkingSetView,
    spans: Seq<Span>,
    progress: ImportProgress,
) -> bool {
    if spans.len() >= 2 && working_set.span_contents(spans[0]) == kind.keyword() {
        &&& progress matches ImportProgress::ParseString(state)
        &&& state.kind == kind
        &&& state.spans@ == spans
        &&& state.index == 1
        &&& state.error is None
    } else {
        progress.is_given_up(
            spans,
            None,
            ErrorView::UnknownState(
                match kind {
                    ImportKind::Use => "Expected structure: use <name>"@,
                    ImportKind::Hide => "Expected structure: hide <name>"@,
                },
                covering(spans),
            ),
        )
    }
}

/// Parses `use pattern`: the exports of a module, or some of them, come into
/// the innermost scope. The working set is not changed yet.
pub fn parse_use(working_set: &mut WorkingSet, spans: &[Span]) -> (progress: ImportProgress)
    ensures
        final(working_set)@ == old(working_set)@,
        begins_import(ImportKind::Use, old(working_set)@, spans@, progress),
{
    if spans.len() >= 2 && is_word(working_set.get_span_contents(spans[0]), "use") {
        ImportProgress::ParseString(
            ImportStrings {
                kind: ImportKind::Use,
                spans: spans_to_vec(spans),
                index: 1,
                error: None,
            },
        )
    } else {
        ImportProgress::Done(
            garbage_statement(spans),
            or_unknown_state(None, "Expected structure: use <name>", span(spans)),
        )
    }
}

/// Parses `hide pattern`: the exports of a module, some of them, or one
/// command are hidden in the innermost scope. The working set is not changed
/// yet.
pub fn parse_hide(working_set: &mut WorkingSet, spans: &[Span]) -> (progress: ImportProgress)
    ensures
        final(working_set)@ == old(working_set)@,
        begins_import(ImportKind::Hide, old(working_set)@, spans@, progress),
{
    if spans.len() >= 2 && is_word(working_set.get_span_contents(spans[0]), "hide") {
        ImportProgress::ParseString(
            ImportStrings {
                kind: ImportKind::Hide,
                spans: spans_to_vec(spans),
                index: 1,
                error: None,
            },
        )
    } else {
        ImportProgress::Done(
            garbage_statement(spans),
            or_unknown_state(None, "Expected structure: hide <name>", span(spans)),
        )
    }
}

impl ImportStrings {
    /// What the caller is to parse: the token at the index, as a string.
    pub fn request(&self) -> (request: Request)
        ensures
            request@ == RequestView::String(token_at(self.spans@, self.index as int)),
    {
        Request::String(token(self.spans.as_slice(), self.index))
    }

    /// Goes on with the string that the caller parsed: its error is kept
    /// unless an earlier one is there; the next token is asked for, and after
    /// the last one the import pattern.
    pub fn resume(self, parsed: Parsed) -> (progress: ImportProgress)
        ensures
            if self.index + 1 < self.spans@.len() {
                progress == ImportProgress::ParseString(
                    ImportStrings {
                        kind: self.kind,
                        spans: self.spans,
                        index: (self.index + 1) as usize,
                        error: first_error(self.error, parsed.error),
                    },
                )
            } else {
                progress == ImportProgress::ParsePattern(
                    ImportHead {
                        kind: self.kind,
                        spans: self.spans,
                        error: first_error(self.error, parsed.error),
                    },
                )
            },
    {
        let error = or_error(self.error, parsed.error);
        if self.index < self.spans.len() && self.index + 1 < self.spans.len() {
            ImportProgress::ParseString(
                ImportStrings { kind: self.kind, spans: self.spans, index: self.index + 1, error },
            )
        } else {
            ImportProgress::ParsePattern(ImportHead { kind: self.kind, spans: self.spans, error })
        }
    }
}

/// Whether the module exports neither a command nor an environment variable
/// as `name`.
pub open spec fn is_missing(overlay: OverlayView, name: Seq<u8>) -> bool {
    bound(overlay.decls, name) is None && !binds(overlay.env_vars, name)
}

/// Where the first of the first `n` names stands that the module does not
/// export.
pub open spec fn list_missing(overlay: OverlayView, names: Seq<(Vec<u8>, Span)>, n: int) -> Option<
    Span,
>
    decreases n,
{
    if n <= 0 || n > names.len() {
        None
    } else {
        match list_missing(overlay, names, n - 1) {
            Some(at) => Some(at),
            None => if is_missing(overlay, names[n - 1].0@) {
                Some(names[n - 1].1)
            } else {
                None
            },
        }
    }
}

/// The name under which a selected export goes: with the head before it, or
/// bare.
pub open spec fn selected_name(head: Seq<u8>, name: Seq<u8>, prefixed: bool) -> Seq<u8> {
    if prefixed {
        with_head(head, name)
    } else {
        name
    }
}

/// The commands among the first `n` names, up to the first name that the
/// module does not export.
pub open spec fn list_selected(
    overlay: OverlayView,
    head: Seq<u8>,
    names: Seq<(Vec<u8>, Span)>,
    n: int,
    prefixed: bool,
) -> Bindings
    decreases n,
{
    if n <= 0 || n > names.len() {
        Seq::empty()
    } else {
        let earlier = list_selected(overlay, head, names, n - 1, prefixed);
        if list_missing(overlay, names, n - 1) is Some {
            earlier
        } else {
            match bound(overlay.decls, names[n - 1].0@) {
                Some(id) => earlier.push((selected_name(head, names[n - 1].0@, prefixed), id)),
                None => earlier,
            }
        }
    }
}

/// The commands that a pattern selects from what a module exports.
///
/// Without member selectors: every command, under its name with the head
/// before it, or bare where `all_prefixed` is off. The selectors after the
/// first are not looked at. `*`: every command under its bare name. One name:
/// that command, if the module exports it. A list: the commands among its
/// names, up to the first name that the module exports neither as a command
/// nor as an environment variable. A command selected by name goes under that
/// name, with the head before it where `prefixed` is on.
pub open spec fn selected(
    overlay: OverlayView,
    head: Seq<u8>,
    members: Seq<ImportPatternMember>,
    prefixed: bool,
    all_prefixed: bool,
) -> Bindings {
    if members.len() == 0 {
        if all_prefixed {
            headed(overlay.decls, head)
        } else {
            overlay.decls
        }
    } else {
        match members[0] {
            ImportPatternMember::Glob { .. } => overlay.decls,
            ImportPatternMember::Name { name, .. } => match bound(overlay.decls, name@) {
                Some(id) => seq![(selected_name(head, name@, prefixed), id)],
                None => Seq::empty(),
            },
            ImportPatternMember::List { names } => list_selected(
                overlay,
                head,
                names@,
                names@.len() as int,
                prefixed,
            ),
        }
    }
}

/// Where the first name stands that the pattern selects and the module
/// exports neither as a command nor as an environment variable.
pub open spec fn missing(overlay: OverlayView, members: Seq<ImportPatternMember>) -> Option<Span> {
    if members.len() == 0 {
        None
    } else {
        match members[0] {
            ImportPatternMember::Glob { .. } => None,
            ImportPatternMember::Name { name, span } => if is_missing(overlay, name@) {
                Some(span)
            } else {
                None
            },
            ImportPatternMember::List { names } => list_missing(
                overlay,
                names@,
                names@.len() as int,
            ),
        }
    }
}

proof fn lemma_list_stops(
    overlay: OverlayView,
    head: Seq<u8>,
    names: Seq<(Vec<u8>, Span)>,
    m: int,
    n: int,
    prefixed: bool,
)
    requires
        0 <= m <= n <= names.len(),
        list_missing(overlay, names, m) is Some,
    ensures
        list_missing(overlay, names, n) == list_missing(overlay, names, m),
        list_selected(overlay, head, names, n, prefixed) == list_selected(
            overlay,
            head,
            names,
            m,
            prefixed,
        ),
    decreases n - m,
{
    if m < n {
        lemma_list_stops(overlay, head, names, m, n - 1, prefixed);
    }
}

fn select_one(overlay: &Overlay, head: &[u8], name: &[u8], prefixed: bool) -> (entry: Option<
    (Vec<u8>, DeclId),
>)
    ensures
        match entry {
            Some(pair) => pair.0@ == selected_name(head@, name@, prefixed) && bound(
                overlay@.decls,
                name@,
            ) == Some(pair.1),
            None => bound(overlay@.decls, name@) is None,
        },
{
    if prefixed {
        overlay.decl_with_head(name, head)
    } else {
        match overlay.get_decl_id(name) {
            Some(id) => Some((to_vec(name), id)),
            None => None,
        }
    }
}

fn select(
    overlay: &Overlay,
    head: &[u8],
    members: &Vec<ImportPatternMember>,
    prefixed: bool,
    all_prefixed: bool,
) -> (found: (Vec<(Vec<u8>, DeclId)>, Option<Span>))
    ensures
        named(found.0@) == selected(overlay@, head@, members@, prefixed, all_prefixed),
        found.1 == missing(overlay@, members@),
{
    if members.len() == 0 {
        if all_prefixed {
            return (overlay.decls_with_head(head), None);
        } else {
            return (overlay.decls(), None);
        }
    }
    match &members[0] {
        ImportPatternMember::Glob { .. } => (overlay.decls(), None),
        ImportPatternMember::Name { name, span } => {
            let mut list: Vec<(Vec<u8>, DeclId)> = Vec::new();
            let mut miss: Option<Span> = None;
            match select_one(overlay, head, name.as_slice(), prefixed) {
                Some(pair) => {
                    list.push(pair);
                    assert(named(list@) =~= seq![(selected_name(head@, name@, prefixed), pair.1)]);
                },
                None => {
                    if !overlay.has_env_var(name.as_slice()) {
                        miss = Some(*span);
                    }
                    assert(named(list@) =~= Seq::<(Seq<u8>, usize)>::empty());
                },
            }
            (list, miss)
        },
        ImportPatternMember::List { names } => {
            let mut list: Vec<(Vec<u8>, DeclId)> = Vec::new();
            let mut miss: Option<Span> = None;
            let mut i: usize = 0;
            assert(named(list@) =~= Seq::<(Seq<u8>, usize)>::empty());
            while i < names.len() && miss.is_none()
                invariant
                    i <= names@.len(),
                    named(list@) == list_selected(overlay@, head@, names@, i as int, prefixed),
                    miss == list_missing(overlay@, names@, i as int),
                decreases names@.len() - i,
            {
                let ghost before = named(list@);
                match select_one(overlay, head, names[i].0.as_slice(), prefixed) {
                    Some(pair) => {
                        list.push(pair);
                        assert(named(list@) =~= before.push(
                            (selected_name(head@, names@[i as int].0@, prefixed), pair.1),
                        ));
                    },
                    None => {
                        if !overlay.has_env_var(names[i].0.as_slice()) {
                            miss = Some(names[i].1);
                        }
                    },
                }
                i += 1;
            }
            proof {
                if miss is Some {
                    lemma_list_stops(
                        overlay@,
                        head@,
                        names@,
                        i as int,
                        names@.len() as int,
                        prefixed,
                    );
                }
            }
            (list, miss)
        },
    }
}

/// The names of a list of bindings.
pub open spec fn names_of(list: Bindings) -> Seq<Seq<u8>> {
    list.map_values(|entry: (Seq<u8>, usize)| entry.0)
}

/// The names of a list of byte strings.
pub open spec fn texts(list: Seq<Vec<u8>>) -> Seq<Seq<u8>> {
    list.map_values(|name: Vec<u8>| name@)
}

fn names(list: &Vec<(Vec<u8>, DeclId)>) -> (names: Vec<Vec<u8>>)
    ensures
        texts(names@) == names_of(named(list@)),
{
    let mut names: Vec<Vec<u8>> = Vec::new();
    let mut i: usize = 0;
    while i < list.len()
        invariant
            i <= list@.len(),
            names@.len() == i,
            forall|j: int| 0 <= j < i ==> (#[trigger] names@[j])@ == list@[j].0@,
        decreases list@.len() - i,
    {
        names.push(to_vec(list[i].0.as_slice()));
        i += 1;
    }
    assert(texts(names@) =~= names_of(named(list@)));
    names
}

/// Whether `expression` is the import pattern of a statement with the tokens
/// `spans`: it spans the tokens after the keyword and is a list of strings.
pub open spec fn is_pattern_expression(
    expression: Expression,
    spans: Seq<Span>,
    head_name: Seq<u8>,
    head_span: Span,
    members: Vec<ImportPatternMember>,
    hidden: Seq<Seq<u8>>,
) -> bool {
    &&& expression.expr matches Expr::ImportPattern(pattern)
    &&& pattern.head.name@ == head_name
    &&& pattern.head.span == head_span
    &&& pattern.members == members
    &&& texts(pattern.hidden@) == hidden
    &&& expression.span == covering(part(spans, 1, spans.len() as int))
    &&& expression.ty == Type::List(Box::new(Type::String))
    &&& expression.custom_completion is None
}

/// Whether `progress` ends a `use` or a `hide` in `working_set`: the call
/// of `keyword` with the import pattern as its one argument, and `error`; or,
/// where the working set does not know that command, a garbage statement
/// and an internal error.
pub open spec fn ends_import(
    working_set: WorkingSetView,
    kind: ImportKind,
    spans: Seq<Span>,
    head_name: Seq<u8>,
    head_span: Span,
    members: Vec<ImportPatternMember>,
    hidden: Seq<Seq<u8>>,
    error: Option<ParseError>,
    progress: ImportProgress,
) -> bool {
    match working_set.find_decl(kind.keyword()) {
        Some(decl_id) => {
            &&& progress matches ImportProgress::Done(statement, reported)
            &&& statement.is_call(covering(spans), Type::Unknown)
            &&& statement.call().head == token_at(spans, 0)
            &&& statement.call().decl_id == decl_id
            &&& statement.call().positional@.len() == 1
            &&& is_pattern_expression(
                statement.call().positional@[0],
                spans,
                head_name,
                head_span,
                members,
                hidden,
            )
            &&& statement.call().named@.len() == 0
            &&& reported == error
        },
        None => progress.is_given_up(
            spans,
            error,
            ErrorView::InternalError(
                match kind {
                    ImportKind::Use => "missing use command"@,
                    ImportKind::Hide => "missing hide command"@,
                },
                token_at(spans, 0),
            ),
        ),
    }
}

fn end_import(
    working_set: &WorkingSet,
    kind: ImportKind,
    spans: Vec<Span>,
    pattern: ImportPattern,
    error: Option<ParseError>,
) -> (progress: ImportProgress)
    ensures
        ends_import(
            working_set@,
            kind,
            spans@,
            pattern.head.name@,
            pattern.head.span,
            pattern.members,
            texts(pattern.hidden@),
            error,
            progress,
        ),
{
    let found = match kind {
        ImportKind::Use => working_set.find_decl("use".as_bytes()),
        ImportKind::Hide => working_set.find_decl("hide".as_bytes()),
    };
    match found {
        Some(decl_id) => {
            let rest = part_to_vec(spans.as_slice(), 1, spans.len());
            let mut call = Call::new(token(spans.as_slice(), 0), decl_id);
            call.positional.push(
                Expression {
                    expr: Expr::ImportPattern(pattern),
                    span: span(rest.as_slice()),
                    ty: Type::List(Box::new(Type::String)),
                    custom_completion: None,
                },
            );
            ImportProgress::Done(call_statement(call, span(spans.as_slice()), Type::Unknown), error)
        },
        None => ImportProgress::Done(
            garbage_statement(spans.as_slice()),
            match kind {
                ImportKind::Use => or_internal_error(
                    error,
                    "missing use command",
                    token(spans.as_slice(), 0),
                ),
                ImportKind::Hide => or_internal_error(
                    error,
                    "missing hide command",
                    token(spans.as_slice(), 0),
                ),
            },
        ),
    }
}

/// Whether `progress`, with the working set `after`, is how a `use` ends in
/// `working_set` with the overlay `overlay_id` of the module called
/// `head_name`.
///
/// The commands that the pattern selects come into the innermost frame: all
/// of them under the module's name and theirs, or those selected under their
/// bare names. A selected name that the module does not export is reported
/// as an export not found.
pub open spec fn ends_use(
    working_set: WorkingSetView,
    spans: Seq<Span>,
    head_name: Seq<u8>,
    head_span: Span,
    members: Vec<ImportPatternMember>,
    overlay: OverlayView,
    error: Option<ParseError>,
    after: WorkingSetView,
    progress: ImportProgress,
) -> bool {
    &&& after == working_set.use_decls(selected(overlay, head_name, members@, false, true))
    &&& exists|reported: Option<ParseError>|
        {
            &&& #[trigger] reports_if(
                reported,
                error,
                export_not_found(missing(overlay, members@)),
            )
            &&& ends_import(
                after,
                ImportKind::Use,
                spans,
                head_name,
                head_span,
                members,
                Seq::empty(),
                reported,
                progress,
            )
        }
}

/// The error of a selected name that is not exported, if there is such a name.
pub open spec fn export_not_found(miss: Option<Span>) -> Option<ErrorView> {
    match miss {
        Some(at) => Some(ErrorView::ExportNotFound(at)),
        None => None,
    }
}

fn or_export_not_found(error: Option<ParseError>, miss: Option<Span>) -> (reported: Option<
    ParseError,
>)
    ensures
        reports_if(reported, error, export_not_found(miss)),
{
    match error {
        Some(earlier) => Some(earlier),
        None => match miss {
            Some(at) => Some(ParseError::ExportNotFound(at)),
            None => None,
        },
    }
}

fn end_use(
    working_set: &mut WorkingSet,
    spans: Vec<Span>,
    head_name: Vec<u8>,
    head_span: Span,
    members: Vec<ImportPatternMember>,
    overlay_id: usize,
    error: Option<ParseError>,
) -> (progress: ImportProgress)
    requires
        overlay_id < old(working_set)@.overlays.len(),
    ensures
        ends_use(
            old(working_set)@,
            spans@,
            head_name@,
            head_span,
            members,
            old(working_set)@.overlays[overlay_id as int]@,
            error,
            final(working_set)@,
            progress,
        ),
{
    let found = match working_set.get_overlay(overlay_id) {
        Some(overlay) => select(overlay, head_name.as_slice(), &members, false, true),
        None => (Vec::new(), None),
    };
    let error = or_export_not_found(error, found.1);
    working_set.use_decls(found.0);
    let pattern = ImportPattern {
        head: ImportPatternHead { name: head_name, span: head_span },
        members,
        hidden: Vec::new(),
    };
    assert(texts(pattern.hidden@) =~= Seq::<Seq<u8>>::empty());
    end_import(working_set, ImportKind::Use, spans, pattern, error)
}

/// Whether `progress`, with the working set `after`, is how a `hide` ends in
/// `working_set` with what the pattern selects from `overlay`.
///
/// The names selected are hidden in the innermost frame and recorded in the
/// pattern. A selected name that the overlay does not hold is reported as an
/// export not found.
pub open spec fn ends_hide(
    working_set: WorkingSetView,
    spans: Seq<Span>,
    pattern: ImportPattern,
    overlay: OverlayView,
    is_module: bool,
    error: Option<ParseError>,
    after: WorkingSetView,
    progress: ImportProgress,
) -> bool {
    let hidden = selected(overlay, pattern.head.name@, pattern.members@, true, is_module);
    &&& after == working_set.hide_decls(hidden)
    &&& exists|reported: Option<ParseError>|
        {
            &&& #[trigger] reports_if(
                reported,
                error,
                export_not_found(missing(overlay, pattern.members@)),
            )
            &&& ends_import(
                after,
                ImportKind::Hide,
                spans,
                pattern.head.name@,
                pattern.head.span,
                pattern.members,
                names_of(hidden),
                reported,
                progress,
            )
        }
}

fn end_hide(
    working_set: &mut WorkingSet,
    spans: Vec<Span>,
    pattern: ImportPattern,
    found: (Vec<(Vec<u8>, DeclId)>, Option<Span>),
    error: Option<ParseError>,
    Ghost(overlay): Ghost<OverlayView>,
    Ghost(is_module): Ghost<bool>,
) -> (progress: ImportProgress)
    requires
        named(found.0@) == selected(overlay, pattern.head.name@, pattern.members@, true, is_module),
        found.1 == missing(overlay, pattern.members@),
    ensures
        ends_hide(
            old(working_set)@,
            spans@,
            pattern,
            overlay,
            is_module,
            error,
            final(working_set)@,
            progress,
        ),
{
    let error = or_export_not_found(error, found.1);
    working_set.hide_decls(&found.0);
    let hidden = names(&found.0);
    let pattern = pattern.with_hidden(hidden);
    end_import(working_set, ImportKind::Hide, spans, pattern, error)
}

impl ImportHead {
    /// The tokens that the caller is to parse as an import pattern: those
    /// after the keyword.
    pub fn request(&self) -> (tokens: Vec<Span>)
        ensures
            tokens@ == part(self.spans@, 1, self.spans@.len() as int),
    {
        part_to_vec(self.spans.as_slice(), 1, self.spans.len())
    }

    /// Whether `progress`, with the working set `after`, is how the statement
    /// goes on from the working set `before` with its pattern.
    ///
    /// `use`: where the head names an overlay, the statement ends with that
    /// overlay. Otherwise the head is the name of a file: it must be UTF-8
    /// text, and the caller is asked to read the file.
    ///
    /// `hide`: where the head names an overlay, the statement ends with that
    /// overlay, and the names hidden have the head before them, but for those
    /// that `*` selects. Where it names none and the pattern has no members,
    /// but the head stands for a command, that one name is hidden. Anything
    /// else is given up: no module was found.
    pub open spec fn steps(
        self,
        before: WorkingSetView,
        pattern: ImportPattern,
        failure: Option<ParseError>,
        after: WorkingSetView,
        progress: ImportProgress,
    ) -> bool {
        let error = first_error(self.error, failure);
        match before.find_overlay(pattern.head.name@) {
            Some(overlay_id) if overlay_id < before.overlays.len() => match self.kind {
                ImportKind::Use => ends_use(
                    before,
                    self.spans@,
                    pattern.head.name@,
                    pattern.head.span,
                    pattern.members,
                    before.overlays[overlay_id as int]@,
                    error,
                    after,
                    progress,
                ),
                ImportKind::Hide => ends_hide(
                    before,
                    self.spans@,
                    pattern,
                    before.overlays[overlay_id as int]@,
                    true,
                    error,
                    after,
                    progress,
                ),
            },
            _ => match self.kind {
                ImportKind::Use => {
                    &&& after == before
                    &&& if is_text(pattern.head.name@) {
                        &&& progress matches ImportProgress::ReadFile(file)
                        &&& file.spans == self.spans
                        &&& text_bytes(file.filename@) == pattern.head.name@
                        &&& file.head_span == pattern.head.span
                        &&& file.members == pattern.members
                        &&& file.error == error
                    } else {
                        progress.is_given_up(
                            self.spans@,
                            error,
                            ErrorView::NonUtf8(token_at(self.spans@, 1)),
                        )
                    }
                },
                ImportKind::Hide => match before.find_decl(pattern.head.name@) {
                    Some(id) if pattern.members@.len() == 0 => ends_hide(
                        before,
                        self.spans@,
                        pattern,
                        OverlayView::empty().with_decl(pattern.head.name@, id),
                        false,
                        error,
                        after,
                        progress,
                    ),
                    _ => {
                        &&& after == before
                        &&& progress.is_given_up(
                            self.spans@,
                            error,
                            ErrorView::ModuleNotFound(token_at(self.spans@, 1)),
                        )
                    },
                },
            },
        }
    }

    /// Goes on with the import pattern that the caller parsed, and the error
    /// of its parsing.
    pub fn resume(
        self,
        working_set: &mut WorkingSet,
        pattern: ImportPattern,
        failure: Option<ParseError>,
    ) -> (progress: ImportProgress)
        ensures
            self.steps(old(working_set)@, pattern, failure, final(working_set)@, progress),
    {
        let error = or_error(self.error, failure);
        let second = token(self.spans.as_slice(), 1);
        let known = match working_set.find_overlay(pattern.head.name.as_slice()) {
            Some(id) => if id < working_set.num_overlays() {
                Some(id)
            } else {
                None
            },
            None => None,
        };
        match self.kind {
            ImportKind::Use => match known {
                Some(overlay_id) => end_use(
                    working_set,
                    self.spans,
                    pattern.head.name,
                    pattern.head.span,
                    pattern.members,
                    overlay_id,
                    error,
                ),
                None => {
                    let ghost name = pattern.head.name@;
                    match string_from_utf8(pattern.head.name) {
                        Some(filename) => ImportProgress::ReadFile(
                            UseFile {
                                spans: self.spans,
                                filename,
                                head_span: pattern.head.span,
                                members: pattern.members,
                                error,
                            },
                        ),
                        None => ImportProgress::Done(
                            garbage_statement(self.spans.as_slice()),
                            match error {
                                Some(earlier) => Some(earlier),
                                None => Some(ParseError::NonUtf8(second)),
                            },
                        ),
                    }
                },
            },
            ImportKind::Hide => match known {
                Some(overlay_id) => {
                    let ghost overlay = working_set@.overlays[overlay_id as int]@;
                    let found = match working_set.get_overlay(overlay_id) {
                        Some(overlay) => select(
                            overlay,
                            pattern.head.name.as_slice(),
                            &pattern.members,
                            true,
                            true,
                        ),
                        None => (Vec::new(), None),
                    };
                    end_hide(
                        working_set,
                        self.spans,
                        pattern,
                        found,
                        error,
                        Ghost(overlay),
                        Ghost(true),
                    )
                },
                None => {
                    let command = if pattern.members.len() == 0 {
                        working_set.find_decl(pattern.head.name.as_slice())
                    } else {
                        None
                    };
                    match command {
                        Some(id) => {
                            let mut overlay = Overlay::new();
                            overlay.add_decl(pattern.head.name.as_slice(), id);
                            let found = select(
                                &overlay,
                                pattern.head.name.as_slice(),
                                &pattern.members,
                                true,
                                false,
                            );
                            end_hide(
                                working_set,
                                self.spans,
                                pattern,
                                found,
                                error,
                                Ghost(overlay@),
                                Ghost(false),
                            )
                        },
                        None => ImportProgress::Done(
                            garbage_statement(self.spans.as_slice()),
                            match error {
                                Some(earlier) => Some(earlier),
                                None => Some(ParseError::ModuleNotFound(second)),
                            },
                        ),
                    }
                },
            },
        }
    }
}

/// Whether `progress`, with the working set `after`, is how a `use` ends in
/// `working_set` once the body of its module file gave `block`, `overlay` and
/// `error`: the block is added, the overlay is added under the name of the
/// module, and the statement ends with that overlay and that name as the
/// head of its pattern.
pub open spec fn ends_file_module(
    working_set: WorkingSetView,
    module: UseModule,
    block: Block,
    overlay: Overlay,
    error: Option<ParseError>,
    after: WorkingSetView,
    progress: ImportProgress,
) -> bool {
    ends_use(
        working_set.add_block(block).add_overlay(text_bytes(module.name@), overlay),
        module.spans@,
        text_bytes(module.name@),
        token_at(module.spans@, 1),
        module.members,
        overlay@,
        first_error(module.error, error),
        after,
        progress,
    )
}

/// Whether `progress`, with the working set `after`, is how a `use` goes on
/// in `working_set` from what the parser of its module file answered.
pub open spec fn follows_file_module(
    working_set: WorkingSetView,
    module: UseModule,
    body: ModuleBlockProgress,
    after: WorkingSetView,
    progress: ImportProgress,
) -> bool {
    match body {
        ModuleBlockProgress::Lex(lex) => {
            &&& after == working_set
            &&& progress == ImportProgress::Lex(UseLex { module, body: lex })
        },
        ModuleBlockProgress::Parse(state) => {
            &&& after == working_set
            &&& progress == ImportProgress::Parse(UseBody { module, body: state })
        },
        ModuleBlockProgress::Done(block, overlay, error) => ends_file_module(
            working_set,
            module,
            block,
            overlay,
            error,
            after,
            progress,
        ),
    }
}

fn follow_file_module(
    working_set: &mut WorkingSet,
    module: UseModule,
    body: ModuleBlockProgress,
) -> (progress: ImportProgress)
    ensures
        follows_file_module(old(working_set)@, module, body, final(working_set)@, progress),
{
    match body {
        ModuleBlockProgress::Lex(lex) => ImportProgress::Lex(UseLex { module, body: lex }),
        ModuleBlockProgress::Parse(state) => ImportProgress::Parse(
            UseBody { module, body: state },
        ),
        ModuleBlockProgress::Done(block, overlay, failure) => {
            let error = or_error(module.error, failure);
            working_set.add_block(block);
            let overlay_id = working_set.add_overlay(module.name.as_str().as_bytes(), overlay);
            let head_span = token(module.spans.as_slice(), 1);
            let head_name = to_vec(module.name.as_str().as_bytes());
            end_use(
                working_set,
                module.spans,
                head_name,
                head_span,
                module.members,
                overlay_id,
                error,
            )
        },
    }
}

impl UseFile {
    /// The file that the caller is to find and read.
    pub fn request(&self) -> (filename: &String)
        ensures
            filename == self.filename,
    {
        &self.filename
    }

    /// Whether `progress`, with the working set `after`, is how the statement
    /// goes on from the working set `before` with what the caller found.
    ///
    /// No file at the path gives the statement up: the file is reported as
    /// not found, at the head of the pattern. A file without a name for the
    /// module, or one that cannot be read, gives it up too: no module was
    /// found. Otherwise the bytes of the file are added to the file buffer,
    /// the scope of the module is entered, and the caller is asked to cut
    /// those bytes into pipelines.
    pub open spec fn steps(
        self,
        before: WorkingSetView,
        found: ModuleFile,
        after: WorkingSetView,
        progress: ImportProgress,
    ) -> bool {
        match found {
            ModuleFile::NotFound => {
                &&& after == before
                &&& progress.is_given_up(
                    self.spans@,
                    self.error,
                    ErrorView::FileNotFound(self.filename@, self.head_span),
                )
            },
            ModuleFile::Unreadable => {
                &&& after == before
                &&& progress.is_given_up(
                    self.spans@,
                    self.error,
                    ErrorView::ModuleNotFound(token_at(self.spans@, 1)),
                )
            },
            ModuleFile::Contents { stem, contents } => {
                let added = before.add_file(self.filename, contents@);
                &&& after == added.enter_scope()
                &&& progress == ImportProgress::Lex(
                    UseLex {
                        module: UseModule {
                            spans: self.spans,
                            name: stem,
                            members: self.members,
                            error: self.error,
                        },
                        body: ModuleBlockLex {
                            span: Span {
                                start: before.contents.len() as usize,
                                end: added.contents.len() as usize,
                            },
                        },
                    },
                )
            },
        }
    }

    /// Goes on with what the caller found at the path.
    pub fn resume(
        self,
        working_set: &mut WorkingSet,
        found: ModuleFile,
    ) -> (progress: ImportProgress)
        ensures
            self.steps(old(working_set)@, found, final(working_set)@, progress),
    {
        match found {
            ModuleFile::NotFound => ImportProgress::Done(
                garbage_statement(self.spans.as_slice()),
                match self.error {
                    Some(earlier) => Some(earlier),
                    None => Some(ParseError::FileNotFound(self.filename, self.head_span)),
                },
            ),
            ModuleFile::Unreadable => ImportProgress::Done(
                garbage_statement(self.spans.as_slice()),
                match self.error {
                    Some(earlier) => Some(earlier),
                    None => Some(
                        ParseError::ModuleNotFound(token(self.spans.as_slice(), 1)),
                    ),
                },
            ),
            ModuleFile::Contents { stem, contents } => {
                let start = working_set.next_span_start();
                working_set.add_file(self.filename, contents.as_slice());
                let end = working_set.next_span_start();
                let module = UseModule {
                    spans: self.spans,
                    name: stem,
                    members: self.members,
                    error: self.error,
                };
                let begun = parse_module_block(working_set, Span { start, end });
                follow_file_module(working_set, module, begun)
            },
        }
    }
}

impl UseLex {
    /// Whether `progress`, with the working set `after`, is how the statement
    /// goes on from the working set `before` with the pipelines of its module
    /// file: the body goes on, and the statement follows its answer.
    pub open spec fn steps(
        self,
        before: WorkingSetView,
        lexed: Lexed,
        after: WorkingSetView,
        progress: ImportProgress,
    ) -> bool {
        exists|answer: ModuleBlockProgress, mid: WorkingSetView|
            {
                &&& #[trigger] self.body.steps(before, lexed, mid, answer)
                &&& follows_file_module(mid, self.module, answer, after, progress)
            }
    }

    /// Goes on with the pipelines that the caller cut the file into.
    pub fn resume(self, working_set: &mut WorkingSet, lexed: Lexed) -> (progress: ImportProgress)
        ensures
            self.steps(old(working_set)@, lexed, final(working_set)@, progress),
    {
        let answer = self.body.resume(working_set, lexed);
        follow_file_module(working_set, self.module, answer)
    }
}

impl UseBody {
    /// What the caller is to parse: what the body of the module asks for.
    pub fn request(&self) -> (request: Request)
        ensures
            request@ == self.body.requested(),
    {
        self.body.request()
    }

    /// Whether `progress`, with the working set `after`, is how the statement
    /// goes on from the working set `before` with what the caller parsed: the
    /// body goes on, and the statement follows its answer.
    pub open spec fn steps(
        self,
        before: WorkingSetView,
        parsed: Parsed,
        after: WorkingSetView,
        progress: ImportProgress,
    ) -> bool {
        exists|answer: ModuleBlockProgress, mid: WorkingSetView|
            {
                &&& #[trigger] self.body.steps(before, parsed, mid, answer)
                &&& follows_file_module(mid, self.module, answer, after, progress)
            }
    }

    /// Goes on with what the caller parsed.
    pub fn resume(self, working_set: &mut WorkingSet, parsed: Parsed) -> (progress: ImportProgress)
        ensures
            self.steps(old(working_set)@, parsed, final(working_set)@, progress),
    {
        let answer = self.body.resume(working_set, parsed);
        follow_file_module(working_set, self.module, answer)
    }
}

} // verus!

//! Every step of a keyword parser keeps order in the working set.
//!
//! Scopes are left as often as they are entered. Every state of a keyword
//! parser knows how many scopes the parser has entered and not yet left. Each
//! step of a parser keeps the depth of the scope stack, less that number, as
//! it was; and a parser that is done holds no scope. So a caller that leaves
//! the scope stack as deep as it found it whenever it parses something for a
//! parser gets the stack back, at the end of the statement, as deep as it was
//! at its start.
//!
//! Ids stay good. No step takes a file, a block, an overlay, a variable, an
//! alias or a declaration away, or puts another in the place of a file, a
//! block, an overlay or an alias.

use vstd::prelude::*;
use crate::alias::with_alias;
use crate::ast::{Call, Expression, ImportPattern, ImportPatternMember, Signature, Statement};
use crate::binding::with_binding;
use crate::bytes::{text_bytes, word};
use crate::decl::Encoding;
use crate::def::{begins_def, begun_predecl, DefProgress, DefState, PredeclProgress, PredeclState};
use crate::error::{first_error, ErrorView, ParseError};
use crate::export::{begins_export, follows_def, is_bare_call, ExportProgress, ExportState};
use crate::import::{
    ends_use, follows_file_module, ImportHead, ImportProgress, ModuleFile, UseBody, UseFile,
    UseLex, UseModule,
};
use crate::model::WorkingSetView;
use crate::module::{follows_body, ModuleBody, ModuleHead, ModuleLex, ModuleName, ModuleProgress};
use crate::module_block::{
    follows_definition, follows_export, parses_after, parses_from, reserves_after, reserves_from,
    tokens_of, Gathered, Lexed, LitePipeline, ModuleBlockLex, ModuleBlockProgress,
    ModuleBlockState, Waiting,
};
use crate::overlay::OverlayView;
use crate::register::with_plugins;
use crate::request::{part, reports, token_at, Parsed};
use crate::span::{covering, Span};

verus! {

/// Whether a step from `before`, where the parser held `held_before` scopes,
/// to `after`, where it holds `held_after`, has left as many scopes as it has
/// entered, but for those it still holds.
pub open spec fn is_balanced(
    before: WorkingSetView,
    held_before: int,
    after: WorkingSetView,
    held_after: int,
) -> bool {
    &&& after.is_rooted()
    &&& after.depth() - held_after == before.depth() - held_before
}

/// Whether a step is balanced and has kept every id that was handed out.
pub open spec fn is_orderly(
    before: WorkingSetView,
    held_before: int,
    after: WorkingSetView,
    held_after: int,
) -> bool {
    &&& is_balanced(before, held_before, after, held_after)
    &&& before.keeps_ids_in(after)
}

/// A run of balanced steps gives the scope stack back as deep as it was.
///
/// Step `i` of a parser finds the stack `found[i]` deep and leaves it
/// `left[i]` deep; the parser holds `held[i]` scopes before the step and
/// `held[i + 1]` after it. If the parser holds no scope when it begins and
/// none when it is done, if every step is balanced, and if the caller hands
/// the stack to each step as deep as the step before left it, then the last
/// step leaves the stack as deep as the first step found it.
pub proof fn lemma_balanced_run(found: Seq<int>, left: Seq<int>, held: Seq<int>)
    requires
        found.len() >= 1,
        left.len() == found.len(),
        held.len() == found.len() + 1,
        held[0] == 0,
        held[found.len() as int] == 0,
        forall|i: int| 0 <= i < found.len() ==> left[i] - held[i + 1] == found[i] - held[i],
        forall|i: int| 0 <= i < found.len() - 1 ==> found[i + 1] == left[i],
    ensures
        left[found.len() - 1] == found[0],
{
    lemma_balanced_prefix(found, left, held, found.len() as int);
}

proof fn lemma_balanced_prefix(found: Seq<int>, left: Seq<int>, held: Seq<int>, n: int)
    requires
        1 <= n <= found.len(),
        left.len() == found.len(),
        held.len() == found.len() + 1,
        held[0] == 0,
        forall|i: int| 0 <= i < found.len() ==> left[i] - held[i + 1] == found[i] - held[i],
        forall|i: int| 0 <= i < found.len() - 1 ==> found[i + 1] == left[i],
    ensures
        left[n - 1] - held[n] == found[0],
    decreases n,
{
    if n > 1 {
        lemma_balanced_prefix(found, left, held, n - 1);
    }
}

/// To enter a scope and to leave it gives the working set back.
pub proof fn lemma_enter_then_exit(working_set: WorkingSetView)
    requires
        working_set.is_rooted(),
    ensures
        working_set.enter_scope().exit_scope() == working_set,
        working_set.enter_scope().depth() == working_set.depth() + 1,
{
    assert(working_set.enter_scope().exit_scope().scopes =~= working_set.scopes);
}

/// To leave a scope takes exactly one frame from the stack, as long as a
/// scope is entered.
pub proof fn lemma_exit_takes_one_frame(working_set: WorkingSetView)
    requires
        working_set.depth() >= 1,
    ensures
        working_set.exit_scope().depth() == working_set.depth() - 1,
        working_set.exit_scope().scopes == working_set.scopes.drop_last(),
{
}

/// A step of the first pass over a definition keeps order.
pub proof fn lemma_predecl_step_is_orderly(
    state: PredeclState,
    before: WorkingSetView,
    parsed: Parsed,
    after: WorkingSetView,
    progress: PredeclProgress,
)
    requires
        before.is_rooted(),
        before.depth() >= state.held_scopes(),
        state.steps(before, parsed, after, progress),
    ensures
        is_orderly(before, state.held_scopes(), after, progress.held_scopes()),
{
}

/// The first pass holds no scope when it begins, and none when it is done.
pub proof fn lemma_predecl_begins_without_scopes(working_set: WorkingSetView, spans: Seq<Span>)
    ensures
        begun_predecl(working_set, spans).held_scopes() == 0,
{
}

/// A step of the second pass over a definition keeps order.
pub proof fn lemma_def_step_is_orderly(
    state: DefState,
    before: WorkingSetView,
    parsed: Parsed,
    after: WorkingSetView,
    progress: DefProgress,
)
    requires
        before.is_rooted(),
        before.depth() >= state.held_scopes(),
        state.steps(before, parsed, after, progress),
    ensures
        is_orderly(before, state.held_scopes(), after, progress.held_scopes()),
{
}

/// The second pass holds no scope when it begins.
pub proof fn lemma_def_begins_without_scopes(
    working_set: WorkingSetView,
    spans: Seq<Span>,
    progress: DefProgress,
)
    requires
        begins_def(working_set, spans, progress),
    ensures
        progress.held_scopes() == 0,
{
}

proof fn lemma_follows_def_holds(
    working_set: WorkingSetView,
    spans: Seq<Span>,
    call: Call,
    answer: DefProgress,
    progress: ExportProgress,
)
    requires
        follows_def(working_set, spans, call, answer, progress),
    ensures
        progress.held_scopes() == answer.held_scopes(),
{
}

/// A step of the parser of `export` keeps order.
pub proof fn lemma_export_step_is_orderly(
    state: ExportState,
    before: WorkingSetView,
    parsed: Parsed,
    after: WorkingSetView,
    progress: ExportProgress,
)
    requires
        before.is_rooted(),
        before.depth() >= state.held_scopes(),
        state.steps(before, parsed, after, progress),
    ensures
        is_orderly(before, state.held_scopes(), after, progress.held_scopes()),
{
    match state {
        ExportState::Def { spans, call, definition } => {
            let answer = choose|answer: DefProgress|
                {
                    &&& #[trigger] definition.steps(before, parsed, after, answer)
                    &&& follows_def(after, spans@, call, answer, progress)
                };
            lemma_def_step_is_orderly(definition, before, parsed, after, answer);
            lemma_follows_def_holds(after, spans@, call, answer, progress);
        },
        _ => {},
    }
}

/// The parser of `export` holds no scope when it begins.
pub proof fn lemma_export_begins_without_scopes(
    working_set: WorkingSetView,
    spans: Seq<Span>,
    progress: ExportProgress,
)
    requires
        begins_export(working_set, spans, progress),
    ensures
        progress.held_scopes() == 0,
{
    if spans.len() > 1 && working_set.span_contents(spans[0]) == word("export")
        && working_set.find_decl(word("export")) is Some
        && working_set.span_contents(spans[1]) == word("def") {
        let decl_id = working_set.find_decl(word("export"))->0;
        let (answer, call) = choose|answer: DefProgress, call: Call|
            {
                &&& #[trigger] begins_def(
                    working_set,
                    part(spans, 1, spans.len() as int),
                    answer,
                )
                &&& is_bare_call(call, spans[0], decl_id)
                &&& #[trigger] follows_def(working_set, spans, call, answer, progress)
            };
        lemma_follows_def_holds(working_set, spans, call, answer, progress);
    }
}

proof fn lemma_parses_from_is_orderly(
    working_set: WorkingSetView,
    span: Span,
    pipelines: Vec<LitePipeline>,
    i: int,
    gathered: Gathered,
    after: WorkingSetView,
    progress: ModuleBlockProgress,
)
    requires
        working_set.depth() >= 1,
        parses_from(working_set, span, pipelines, i, gathered, after, progress),
    ensures
        is_orderly(working_set, 1, after, progress.held_scopes()),
    decreases pipelines@.len() - i,
{
    if i >= pipelines@.len() {
    } else {
        match tokens_of(pipelines, i) {
            None => {
                let (statement, error) = choose|
                    statement: Statement,
                    error: Option<ParseError>,
                |
                    {
                        &&& #[trigger] statement.is_garbage(span)
                        &&& #[trigger] reports(
                            error,
                            gathered.error,
                            ErrorView::Expected("not a pipeline"@, span),
                        )
                        &&& parses_from(
                            working_set,
                            span,
                            pipelines,
                            i + 1,
                            Gathered {
                                statements: gathered.statements.push(statement),
                                error,
                                ..gathered
                            },
                            after,
                            progress,
                        )
                    };
                lemma_parses_from_is_orderly(
                    working_set,
                    span,
                    pipelines,
                    i + 1,
                    Gathered { statements: gathered.statements.push(statement), error, ..gathered },
                    after,
                    progress,
                );
            },
            Some(tokens) => {
                if working_set.span_contents(token_at(tokens, 0)) == word(
                    "def",
                ) {
                    let answer = choose|answer: DefProgress|
                        {
                            &&& #[trigger] begins_def(working_set, tokens, answer)
                            &&& follows_definition(
                                working_set,
                                span,
                                pipelines,
                                i,
                                gathered,
                                answer,
                                after,
                                progress,
                            )
                        };
                    lemma_def_begins_without_scopes(working_set, tokens, answer);
                    match answer {
                        DefProgress::Parse(_) => {},
                        DefProgress::Done(statement, error) => {
                            lemma_parses_from_is_orderly(
                                working_set,
                                span,
                                pipelines,
                                i + 1,
                                gathered.record(statement, error),
                                after,
                                progress,
                            );
                        },
                    }
                } else if working_set.span_contents(token_at(tokens, 0))
                    == word("export") {
                    let answer = choose|answer: ExportProgress|
                        {
                            &&& #[trigger] begins_export(working_set, tokens, answer)
                            &&& follows_export(
                                working_set,
                                span,
                                pipelines,
                                i,
                                gathered,
                                answer,
                                after,
                                progress,
                            )
                        };
                    lemma_export_begins_without_scopes(working_set, tokens, answer);
                    match answer {
                        ExportProgress::Parse(_) => {},
                        ExportProgress::Done(statement, exportable, error) => {
                            lemma_parses_from_is_orderly(
                                working_set,
                                span,
                                pipelines,
                                i + 1,
                                gathered.export(working_set, tokens, exportable, error).record(
                                    statement,
                                    error,
                                ),
                                after,
                                progress,
                            );
                        },
                    }
                } else {
                    let (statement, error) = choose|
                        statement: Statement,
                        error: Option<ParseError>,
                    |
                        {
                            &&& #[trigger] statement.is_garbage(covering(tokens))
                            &&& #[trigger] reports(
                                error,
                                None,
                                ErrorView::UnexpectedKeyword(
                                    "expected def or export keyword"@,
                                    token_at(tokens, 0),
                                ),
                            )
                            &&& parses_from(
                                working_set,
                                span,
                                pipelines,
                                i + 1,
                                gathered.record(statement, error),
                                after,
                                progress,
                            )
                        };
                    lemma_parses_from_is_orderly(
                        working_set,
                        span,
                        pipelines,
                        i + 1,
                        gathered.record(statement, error),
                        after,
                        progress,
                    );
                }
            },
        }
    }
}

proof fn lemma_parses_after_is_orderly(
    working_set: WorkingSetView,
    span: Span,
    pipelines: Vec<LitePipeline>,
    i: int,
    gathered: Gathered,
    after: WorkingSetView,
    progress: ModuleBlockProgress,
)
    requires
        working_set.depth() >= 1,
        parses_after(working_set, span, pipelines, i, gathered, after, progress),
    ensures
        is_orderly(working_set, 1, after, progress.held_scopes()),
{
    if 0 <= i < pipelines@.len() {
        lemma_parses_from_is_orderly(
            working_set,
            span,
            pipelines,
            i + 1,
            gathered,
            after,
            progress,
        );
    }
}

proof fn lemma_reserves_from_is_orderly(
    working_set: WorkingSetView,
    span: Span,
    pipelines: Vec<LitePipeline>,
    i: int,
    gathered: Gathered,
    after: WorkingSetView,
    progress: ModuleBlockProgress,
)
    requires
        working_set.depth() >= 1,
        reserves_from(working_set, span, pipelines, i, gathered, after, progress),
    ensures
        is_orderly(working_set, 1, after, progress.held_scopes()),
    decreases pipelines@.len() - i,
{
    if i >= pipelines@.len() {
        lemma_parses_from_is_orderly(working_set, span, pipelines, 0, gathered, after, progress);
    } else {
        match tokens_of(pipelines, i) {
            Some(tokens) => match begun_predecl(working_set, tokens) {
                PredeclProgress::Parse(_) => {},
                PredeclProgress::Done(_) => {
                    lemma_reserves_from_is_orderly(
                        working_set,
                        span,
                        pipelines,
                        i + 1,
                        gathered,
                        after,
                        progress,
                    );
                },
            },
            None => {
                lemma_reserves_from_is_orderly(
                    working_set,
                    span,
                    pipelines,
                    i + 1,
                    gathered,
                    after,
                    progress,
                );
            },
        }
    }
}

/// The step of a module body that takes its pipelines keeps order.
pub proof fn lemma_module_block_lex_is_orderly(
    state: ModuleBlockLex,
    before: WorkingSetView,
    lexed: Lexed,
    after: WorkingSetView,
    progress: ModuleBlockProgress,
)
    requires
        before.depth() >= 1,
        state.steps(before, lexed, after, progress),
    ensures
        is_orderly(before, 1, after, progress.held_scopes()),
{
    lemma_reserves_from_is_orderly(
        before,
        state.span,
        lexed.block.block,
        0,
        Gathered {
            statements: Seq::empty(),
            overlay: OverlayView::empty(),
            error: first_error(lexed.lex_error, lexed.parse_error),
        },
        after,
        progress,
    );
}

/// A step of a module body keeps order.
pub proof fn lemma_module_block_step_is_orderly(
    state: ModuleBlockState,
    before: WorkingSetView,
    parsed: Parsed,
    after: WorkingSetView,
    progress: ModuleBlockProgress,
)
    requires
        before.is_rooted(),
        before.depth() >= state.held_scopes(),
        state.steps(before, parsed, after, progress),
    ensures
        is_orderly(before, state.held_scopes(), after, progress.held_scopes()),
{
    match state.waiting {
        Waiting::Predecl(inner) => {
            let (answer, mid) = choose|answer: PredeclProgress, mid: WorkingSetView|
                {
                    &&& #[trigger] inner.steps(before, parsed, mid, answer)
                    &&& match answer {
                        PredeclProgress::Parse(next) => {
                            &&& after == mid
                            &&& progress.is_waiting(
                                state.span,
                                state.pipelines,
                                state.index as int,
                                Waiting::Predecl(next),
                                state.gathered(),
                            )
                        },
                        PredeclProgress::Done(_) => reserves_after(
                            mid,
                            state.span,
                            state.pipelines,
                            state.index as int,
                            state.gathered(),
                            after,
                            progress,
                        ),
                    }
                };
            lemma_predecl_step_is_orderly(inner, before, parsed, mid, answer);
            match answer {
                PredeclProgress::Parse(_) => {},
                PredeclProgress::Done(_) => {
                    if 0 <= state.index < state.pipelines@.len() {
                        lemma_reserves_from_is_orderly(
                            mid,
                            state.span,
                            state.pipelines,
                            state.index + 1,
                            state.gathered(),
                            after,
                            progress,
                        );
                    } else {
                        lemma_parses_from_is_orderly(
                            mid,
                            state.span,
                            state.pipelines,
                            0,
                            state.gathered(),
                            after,
                            progress,
                        );
                    }
                },
            }
        },
        Waiting::Def(inner) => {
            let (answer, mid) = choose|answer: DefProgress, mid: WorkingSetView|
                {
                    &&& #[trigger] inner.steps(before, parsed, mid, answer)
                    &&& follows_definition(
                        mid,
                        state.span,
                        state.pipelines,
                        state.index as int,
                        state.gathered(),
                        answer,
                        after,
                        progress,
                    )
                };
            lemma_def_step_is_orderly(inner, before, parsed, mid, answer);
            match answer {
                DefProgress::Parse(_) => {},
                DefProgress::Done(statement, error) => {
                    lemma_parses_after_is_orderly(
                        mid,
                        state.span,
                        state.pipelines,
                        state.index as int,
                        state.gathered().record(statement, error),
                        after,
                        progress,
                    );
                },
            }
        },
        Waiting::Export(inner) => {
            let (answer, mid) = choose|answer: ExportProgress, mid: WorkingSetView|
                {
                    &&& #[trigger] inner.steps(before, parsed, mid, answer)
                    &&& follows_export(
                        mid,
                        state.span,
                        state.pipelines,
                        state.index as int,
                        state.gathered(),
                        answer,
                        after,
                        progress,
                    )
                };
            lemma_export_step_is_orderly(inner, before, parsed, mid, answer);
            match answer {
                ExportProgress::Parse(_) => {},
                ExportProgress::Done(statement, exportable, error) => {
                    lemma_parses_after_is_orderly(
                        mid,
                        state.span,
                        state.pipelines,
                        state.index as int,
                        match tokens_of(state.pipelines, state.index as int) {
                            Some(tokens) => state.gathered().export(
                                mid,
                                tokens,
                                exportable,
                                error,
                            ),
                            None => state.gathered(),
                        }.record(statement, error),
                        after,
                        progress,
                    );
                },
            }
        },
    }
}

proof fn lemma_follows_body_is_orderly(
    working_set: WorkingSetView,
    head: ModuleHead,
    body: ModuleBlockProgress,
    after: WorkingSetView,
    progress: ModuleProgress,
)
    requires
        working_set.is_rooted(),
        follows_body(working_set, head, body, after, progress),
    ensures
        is_orderly(working_set, body.held_scopes(), after, progress.held_scopes()),
{
}

/// The step of a `module` statement that takes its name keeps order.
pub proof fn lemma_module_name_is_orderly(
    state: ModuleName,
    before: WorkingSetView,
    parsed: Parsed,
    after: WorkingSetView,
    progress: ModuleProgress,
)
    requires
        before.is_rooted(),
        state.steps(before, parsed, after, progress),
    ensures
        is_orderly(before, 0, after, progress.held_scopes()),
{
}

/// The step of a `module` statement that takes the pipelines of its body keeps
/// order.
pub proof fn lemma_module_lex_is_orderly(
    state: ModuleLex,
    before: WorkingSetView,
    lexed: Lexed,
    after: WorkingSetView,
    progress: ModuleProgress,
)
    requires
        before.depth() >= 1,
        state.steps(before, lexed, after, progress),
    ensures
        is_orderly(before, 1, after, progress.held_scopes()),
{
    let (answer, mid) = choose|answer: ModuleBlockProgress, mid: WorkingSetView|
        {
            &&& #[trigger] state.body.steps(before, lexed, mid, answer)
            &&& follows_body(mid, state.head, answer, after, progress)
        };
    lemma_module_block_lex_is_orderly(state.body, before, lexed, mid, answer);
    lemma_follows_body_is_orderly(mid, state.head, answer, after, progress);
}

/// A step of a `module` statement within its body keeps order.
pub proof fn lemma_module_step_is_orderly(
    state: ModuleBody,
    before: WorkingSetView,
    parsed: Parsed,
    after: WorkingSetView,
    progress: ModuleProgress,
)
    requires
        before.is_rooted(),
        before.depth() >= state.body.held_scopes(),
        state.steps(before, parsed, after, progress),
    ensures
        is_orderly(before, state.body.held_scopes(), after, progress.held_scopes()),
{
    let (answer, mid) = choose|answer: ModuleBlockProgress, mid: WorkingSetView|
        {
            &&& #[trigger] state.body.steps(before, parsed, mid, answer)
            &&& follows_body(mid, state.head, answer, after, progress)
        };
    lemma_module_block_step_is_orderly(state.body, before, parsed, mid, answer);
    lemma_follows_body_is_orderly(mid, state.head, answer, after, progress);
}

proof fn lemma_ends_use_is_orderly(
    working_set: WorkingSetView,
    spans: Seq<Span>,
    head_name: Seq<u8>,
    head_span: Span,
    members: Vec<ImportPatternMember>,
    overlay: OverlayView,
    error: Option<ParseError>,
    after: WorkingSetView,
    progress: ImportProgress,
)
    requires
        working_set.is_rooted(),
        ends_use(
            working_set,
            spans,
            head_name,
            head_span,
            members,
            overlay,
            error,
            after,
            progress,
        ),
    ensures
        is_orderly(working_set, 0, after, progress.held_scopes()),
{
}

proof fn lemma_follows_file_module_is_orderly(
    working_set: WorkingSetView,
    module: UseModule,
    body: ModuleBlockProgress,
    after: WorkingSetView,
    progress: ImportProgress,
)
    requires
        working_set.is_rooted(),
        follows_file_module(working_set, module, body, after, progress),
    ensures
        is_orderly(working_set, body.held_scopes(), after, progress.held_scopes()),
{
    match body {
        ModuleBlockProgress::Done(block, overlay, error) => {
            lemma_ends_use_is_orderly(
                working_set.add_block(block).add_overlay(
                    text_bytes(module.name@),
                    overlay,
                ),
                module.spans@,
                text_bytes(module.name@),
                token_at(module.spans@, 1),
                module.members,
                overlay@,
                first_error(module.error, error),
                after,
                progress,
            );
        },
        _ => {},
    }
}

/// The step of a `use` or a `hide` that takes its pattern keeps order.
pub proof fn lemma_import_head_is_orderly(
    state: ImportHead,
    before: WorkingSetView,
    pattern: ImportPattern,
    failure: Option<ParseError>,
    after: WorkingSetView,
    progress: ImportProgress,
)
    requires
        before.is_rooted(),
        state.steps(before, pattern, failure, after, progress),
    ensures
        is_orderly(before, 0, after, progress.held_scopes()),
{
}

/// The step of a `use` that takes the file of its module keeps order.
pub proof fn lemma_use_file_is_orderly(
    state: UseFile,
    before: WorkingSetView,
    found: ModuleFile,
    after: WorkingSetView,
    progress: ImportProgress,
)
    requires
        before.is_rooted(),
        state.steps(before, found, after, progress),
    ensures
        is_orderly(before, 0, after, progress.held_scopes()),
{
}

/// The step of a `use` that takes the pipelines of its module file keeps
/// order.
pub proof fn lemma_use_lex_is_orderly(
    state: UseLex,
    before: WorkingSetView,
    lexed: Lexed,
    after: WorkingSetView,
    progress: ImportProgress,
)
    requires
        before.depth() >= 1,
        state.steps(before, lexed, after, progress),
    ensures
        is_orderly(before, 1, after, progress.held_scopes()),
{
    let (answer, mid) = choose|answer: ModuleBlockProgress, mid: WorkingSetView|
        {
            &&& #[trigger] state.body.steps(before, lexed, mid, answer)
            &&& follows_file_module(mid, state.module, answer, after, progress)
        };
    lemma_module_block_lex_is_orderly(state.body, before, lexed, mid, answer);
    lemma_follows_file_module_is_orderly(mid, state.module, answer, after, progress);
}

/// A step of a `use` within the body of its module file keeps order.
pub proof fn lemma_use_step_is_orderly(
    state: UseBody,
    before: WorkingSetView,
    parsed: Parsed,
    after: WorkingSetView,
    progress: ImportProgress,
)
    requires
        before.is_rooted(),
        before.depth() >= state.body.held_scopes(),
        state.steps(before, parsed, after, progress),
    ensures
        is_orderly(before, state.body.held_scopes(), after, progress.held_scopes()),
{
    let (answer, mid) = choose|answer: ModuleBlockProgress, mid: WorkingSetView|
        {
            &&& #[trigger] state.body.steps(before, parsed, mid, answer)
            &&& follows_file_module(mid, state.module, answer, after, progress)
        };
    lemma_module_block_step_is_orderly(state.body, before, parsed, mid, answer);
    lemma_follows_file_module_is_orderly(mid, state.module, answer, after, progress);
}

/// To record an alias leaves the scope stack as deep as it was.
pub proof fn lemma_alias_keeps_depth(working_set: WorkingSetView, spans: Seq<Span>)
    requires
        working_set.is_rooted(),
    ensures
        is_orderly(working_set, 0, with_alias(working_set, spans), 0),
{
}

/// To give a variable its type leaves the scope stack as it was.
pub proof fn lemma_binding_keeps_depth(
    working_set: WorkingSetView,
    variable: Expression,
    value: Expression,
)
    requires
        working_set.is_rooted(),
    ensures
        with_binding(working_set, variable, value).scopes == working_set.scopes,
{
}

/// To declare the commands of a plugin leaves the scope stack as deep as it
/// was.
pub proof fn lemma_plugins_keep_depth(
    working_set: WorkingSetView,
    path: Seq<char>,
    signatures: Seq<Signature>,
    encoding: Encoding,
    shell: Option<Seq<char>>,
    n: int,
)
    requires
        working_set.is_rooted(),
    ensures
        is_orderly(
            working_set,
            0,
            with_plugins(working_set, path, signatures, encoding, shell, n),
            0,
        ),
    decreases n,
{
    if 0 < n <= signatures.len() {
        lemma_plugins_keep_depth(working_set, path, signatures, encoding, shell, n - 1);
    }
}

} // verus!

//! `export def ...` and `export env ...`: what a module offers to its users.

use vstd::prelude::*;
use crate::ast::{call_statement, garbage_statement, Call, Exportable, Expr, Statement, Type};
use crate::bytes::{is_word, trim_quotes, without_quotes, word};
use crate::def::{begins_def, parse_def, DefProgress, DefState};
use crate::error::{first_error, or_error, ErrorView, ParseError};
use crate::model::WorkingSetView;
use crate::request::{
    extends, or_expected, or_internal_error, or_missing_positional, or_unknown_state, part,
    part_to_vec, push_positional, reports, token, token_at, Parsed, Request, RequestView,
};
use crate::span::{covering, span, spans_to_vec, Span};
use crate::working_set::WorkingSet;

verus! {

/// An `export` statement, stopped for its caller to parse.
#[derive(Debug, PartialEq, Eq)]
pub enum ExportState {
    /// `export env`: the name of the variable is asked for.
    EnvName { spans: Vec<Span>, asked: Span, call: Call },
    /// `export env`: the block that computes the variable is asked for.
    EnvBlock { spans: Vec<Span>, asked: Span, call: Call, error: Option<ParseError> },
    /// `export def`: the definition is being parsed.
    Def { spans: Vec<Span>, call: Call, definition: DefState },
}

/// How far the parsing of an `export` statement has come.
#[derive(Debug, PartialEq, Eq)]
pub enum ExportProgress {
    /// The caller is to parse what the state asks for and resume it.
    Parse(ExportState),
    /// The statement, what it exports, and the first error met.
    Done(Statement, Option<Exportable>, Option<ParseError>),
}

impl ExportProgress {
    /// How many scopes the parser has entered and not yet left.
    pub open spec fn held_scopes(self) -> int {
        match self {
            ExportProgress::Parse(state) => state.held_scopes(),
            ExportProgress::Done(..) => 0,
        }
    }

    /// Whether this is the answer to a statement that is given up: a garbage
    /// statement over all of `spans`, no export, and `error`.
    pub open spec fn is_given_up(self, spans: Seq<Span>, error: ErrorView) -> bool {
        &&& self matches ExportProgress::Done(statement, exportable, reported)
        &&& statement.is_garbage(covering(spans))
        &&& exportable is None
        &&& reports(reported, None, error)
    }

    /// Whether this is the answer that ends the statement with `call`: the
    /// call over all of `spans`, `exportable`, and `reported`.
    pub open spec fn is_ended(
        self,
        spans: Seq<Span>,
        call: Call,
        exportable: Option<Exportable>,
    ) -> bool {
        &&& self matches ExportProgress::Done(statement, exported, _)
        &&& statement.is_call(covering(spans), Type::Unknown)
        &&& statement.call() == call
        &&& exported == exportable
    }

    /// The error of a parser that is done.
    pub open spec fn reported(self) -> Option<ParseError> {
        match self {
            ExportProgress::Done(_, _, reported) => reported,
            ExportProgress::Parse(_) => None,
        }
    }
}

/// The call of the definition that `statement` holds, if it is a pipeline
/// whose first expression is a call.
pub open spec fn definition_call(statement: Statement) -> Option<Call> {
    match statement {
        Statement::Pipeline(pipeline) => if pipeline.expressions@.len() > 0 {
            match pipeline.expressions@[0].expr {
                Expr::Call(call) => Some(*call),
                _ => None,
            }
        } else {
            None
        },
        _ => None,
    }
}

fn take_definition_call(statement: Statement) -> (call: Option<Call>)
    ensures
        call == definition_call(statement),
{
    match statement {
        Statement::Pipeline(pipeline) => {
            let mut expressions = pipeline.expressions;
            if expressions.len() > 0 {
                let first = expressions.swap_remove(0);
                match first.expr {
                    Expr::Call(call) => Some(*call),
                    _ => None,
                }
            } else {
                None
            }
        },
        _ => None,
    }
}

/// Whether `progress` is how an `export def` ends in `working_set` once the
/// definition after `export` gave `statement` and `error`.
///
/// A working set that does not know the command `export def` gives the
/// statement up. Otherwise the call of the definition, now a call of
/// `export def` whose head covers both words, is the statement; a definition
/// that gave no call leaves the call of `export` as it was and is an internal
/// error. Without an error the export is the command that the defined name,
/// without its quotes, stands for; that it stands for none is an internal
/// error.
pub open spec fn ends_def(
    working_set: WorkingSetView,
    spans: Seq<Span>,
    call: Call,
    statement: Statement,
    error: Option<ParseError>,
    progress: ExportProgress,
) -> bool {
    match working_set.find_decl(word("export def")) {
        None => progress.is_given_up(
            spans,
            ErrorView::InternalError("missing 'export def' command"@, token_at(spans, 0)),
        ),
        Some(decl_id) => {
            let unexpected = ErrorView::InternalError(
                "unexpected output from parsing a definition"@,
                covering(part(spans, 1, spans.len() as int)),
            );
            let not_found = ErrorView::InternalError(
                "failed to find added declaration"@,
                covering(part(spans, 1, spans.len() as int)),
            );
            match definition_call(statement) {
                None => {
                    &&& progress.is_ended(spans, call, None)
                    &&& reports(progress.reported(), error, unexpected)
                },
                Some(defined) => {
                    let exported = Call {
                        head: covering(part(spans, 0, 2)),
                        decl_id,
                        positional: defined.positional,
                        named: defined.named,
                    };
                    if error is Some || spans.len() <= 2 {
                        &&& progress.is_ended(spans, exported, None)
                        &&& progress.reported() == error
                    } else {
                        match working_set.find_decl(
                            without_quotes(working_set.span_contents(spans[2])),
                        ) {
                            Some(id) => {
                                &&& progress.is_ended(spans, exported, Some(Exportable::Decl(id)))
                                &&& progress.reported() is None
                            },
                            None => {
                                &&& progress.is_ended(spans, exported, None)
                                &&& reports(progress.reported(), None, not_found)
                            },
                        }
                    }
                },
            }
        },
    }
}

fn end_def(
    working_set: &WorkingSet,
    spans: Vec<Span>,
    call: Call,
    statement: Statement,
    error: Option<ParseError>,
) -> (progress: ExportProgress)
    ensures
        ends_def(working_set@, spans@, call, statement, error, progress),
{
    let export_def_id = match working_set.find_decl("export def".as_bytes()) {
        Some(id) => id,
        None => {
            return ExportProgress::Done(
                garbage_statement(spans.as_slice()),
                None,
                or_internal_error(
                    None,
                    "missing 'export def' command",
                    token(spans.as_slice(), 0),
                ),
            );
        },
    };
    let rest = part_to_vec(spans.as_slice(), 1, spans.len());
    let both = part_to_vec(spans.as_slice(), 0, 2);
    let outer = span(spans.as_slice());
    match take_definition_call(statement) {
        None => {
            let error = or_internal_error(
                error,
                "unexpected output from parsing a definition",
                span(rest.as_slice()),
            );
            ExportProgress::Done(call_statement(call, outer, Type::Unknown), None, error)
        },
        Some(defined) => {
            let exported = Call {
                head: span(both.as_slice()),
                decl_id: export_def_id,
                positional: defined.positional,
                named: defined.named,
            };
            if error.is_some() || spans.len() <= 2 {
                ExportProgress::Done(call_statement(exported, outer, Type::Unknown), None, error)
            } else {
                let name = trim_quotes(working_set.get_span_contents(spans[2]));
                match working_set.find_decl(name) {
                    Some(id) => ExportProgress::Done(
                        call_statement(exported, outer, Type::Unknown),
                        Some(Exportable::Decl(id)),
                        None,
                    ),
                    None => ExportProgress::Done(
                        call_statement(exported, outer, Type::Unknown),
                        None,
                        or_internal_error(
                            None,
                            "failed to find added declaration",
                            span(rest.as_slice()),
                        ),
                    ),
                }
            }
        },
    }
}

/// Whether `progress` is how an `export def` goes on in `working_set` from
/// what the parser of the definition answered.
pub open spec fn follows_def(
    working_set: WorkingSetView,
    spans: Seq<Span>,
    call: Call,
    definition: DefProgress,
    progress: ExportProgress,
) -> bool {
    match definition {
        DefProgress::Parse(next) => {
            &&& progress matches ExportProgress::Parse(
                ExportState::Def { spans: s, call: c, definition: d },
            )
            &&& s@ == spans
            &&& c == call
            &&& d == next
        },
        DefProgress::Done(statement, error) => ends_def(
            working_set,
            spans,
            call,
            statement,
            error,
            progress,
        ),
    }
}

fn follow_def(
    working_set: &WorkingSet,
    spans: Vec<Span>,
    call: Call,
    definition: DefProgress,
) -> (progress: ExportProgress)
    ensures
        follows_def(working_set@, spans@, call, definition, progress),
{
    match definition {
        DefProgress::Parse(next) => ExportProgress::Parse(
            ExportState::Def { spans, call, definition: next },
        ),
        DefProgress::Done(statement, error) => end_def(working_set, spans, call, statement, error),
    }
}

impl ExportState {
    /// How many scopes the parser has entered and not yet left.
    pub open spec fn held_scopes(self) -> int {
        match self {
            ExportState::Def { definition, .. } => definition.held_scopes(),
            _ => 0,
        }
    }

    /// What the caller is to parse. The block of an `export env` is asked for
    /// as a block without a parameter list.
    pub open spec fn requested(self) -> RequestView {
        match self {
            ExportState::EnvName { asked, .. } => RequestView::String(asked),
            ExportState::EnvBlock { asked, .. } => RequestView::Block { span: asked, params: None },
            ExportState::Def { definition, .. } => definition.requested(),
        }
    }

    /// What the caller is to parse.
    pub fn request(&self) -> (request: Request)
        ensures
            request@ == self.requested(),
    {
        match self {
            ExportState::EnvName { asked, .. } => Request::String(*asked),
            ExportState::EnvBlock { asked, .. } => Request::Block { span: *asked, params: None },
            ExportState::Def { definition, .. } => definition.request(),
        }
    }

    /// Whether `progress`, with the working set `after`, is how this state goes
    /// on from the working set `before` with what the caller parsed.
    ///
    /// - `export env`, after the name: the name is the first argument of the
    ///   call. With a block to come, it is asked for; without one the block is
    ///   reported missing right after the name.
    /// - `export env`, after the block: the block is the second argument. If
    ///   it is a block, the statement exports the variable that it computes;
    ///   that it is none is an internal error.
    /// - `export def`: the definition goes on, and the statement with it.
    pub open spec fn steps(
        self,
        before: WorkingSetView,
        parsed: Parsed,
        after: WorkingSetView,
        progress: ExportProgress,
    ) -> bool {
        match self {
            ExportState::EnvName { spans, asked, call } => {
                &&& after == before
                &&& if spans@.len() > 3 {
                    &&& progress matches ExportProgress::Parse(
                        ExportState::EnvBlock { spans: s, asked: a, call: c, error: e },
                    )
                    &&& s == spans
                    &&& a == spans@[3]
                    &&& extends(c, call, parsed.expression)
                    &&& e == parsed.error
                } else {
                    &&& progress matches ExportProgress::Done(statement, exportable, reported)
                    &&& statement.is_call(covering(spans@), Type::Unknown)
                    &&& extends(statement.call(), call, parsed.expression)
                    &&& exportable is None
                    &&& reports(
                        reported,
                        parsed.error,
                        ErrorView::MissingPositional("block"@, asked.past()),
                    )
                }
            },
            ExportState::EnvBlock { spans, asked, call, error } => {
                &&& after == before
                &&& progress matches ExportProgress::Done(statement, exportable, reported)
                &&& statement.is_call(covering(spans@), Type::Unknown)
                &&& extends(statement.call(), call, parsed.expression)
                &&& match parsed.expression.expr {
                    Expr::Block(block_id) => {
                        &&& exportable == Some(Exportable::EnvVar(block_id))
                        &&& reported == first_error(error, parsed.error)
                    },
                    _ => {
                        &&& exportable is None
                        &&& reports(
                            reported,
                            first_error(error, parsed.error),
                            ErrorView::InternalError("block was not parsed as a block"@, asked),
                        )
                    },
                }
            },
            ExportState::Def { spans, call, definition } => exists|answer: DefProgress|
                {
                    &&& #[trigger] definition.steps(before, parsed, after, answer)
                    &&& follows_def(after, spans@, call, answer, progress)
                },
        }
    }

    /// Goes on with what the caller parsed.
    pub fn resume(self, working_set: &mut WorkingSet, parsed: Parsed) -> (progress: ExportProgress)
        ensures
            self.steps(old(working_set)@, parsed, final(working_set)@, progress),
    {
        match self {
            ExportState::EnvName { spans, asked, call } => {
                let error = parsed.error;
                let call = push_positional(call, parsed.expression);
                if spans.len() > 3 {
                    let block_span = spans[3];
                    ExportProgress::Parse(
                        ExportState::EnvBlock { spans, asked: block_span, call, error },
                    )
                } else {
                    let error = or_missing_positional(error, "block", asked.past());
                    ExportProgress::Done(
                        call_statement(call, span(spans.as_slice()), Type::Unknown),
                        None,
                        error,
                    )
                }
            },
            ExportState::EnvBlock { spans, asked, call, error } => {
                let mut error = or_error(error, parsed.error);
                let exportable = match &parsed.expression.expr {
                    Expr::Block(block_id) => Some(Exportable::EnvVar(*block_id)),
                    _ => {
                        error = or_internal_error(error, "block was not parsed as a block", asked);
                        None
                    },
                };
                let call = push_positional(call, parsed.expression);
                ExportProgress::Done(
                    call_statement(call, span(spans.as_slice()), Type::Unknown),
                    exportable,
                    error,
                )
            },
            ExportState::Def { spans, call, definition } => {
                let answer = definition.resume(working_set, parsed);
                follow_def(working_set, spans, call, answer)
            },
        }
    }
}

/// Whether `progress` is how `parse_export` answers the tokens `spans` in
/// `working_set`.
///
/// No tokens, a first token other than `export`, or a working set that does
/// not know the command `export` or, for `export env`, the command
/// `export env`: the statement is given up. A lone `export`, or one followed
/// by something else than `def` or `env`: the call of `export` without
/// arguments, and the keyword reported as missing right after `export`, or as
/// expected where the other word stands. `export env`: the call of
/// `export env` whose head covers both words; the name is asked for, or
/// reported missing right after `env`. `export def`: the definition after
/// `export` is begun, and the statement goes on from its answer.
pub open spec fn begins_export(
    working_set: WorkingSetView,
    spans: Seq<Span>,
    progress: ExportProgress,
) -> bool {
    if spans.len() == 0 {
        progress.is_given_up(
            spans,
            ErrorView::UnknownState(
                "got empty input for parsing export statement"@,
                covering(spans),
            ),
        )
    } else if working_set.span_contents(spans[0]) != word("export") {
        progress.is_given_up(
            spans,
            ErrorView::UnknownState("expected export statement"@, covering(spans)),
        )
    } else {
        match working_set.find_decl(word("export")) {
            None => progress.is_given_up(
                spans,
                ErrorView::InternalError("missing export command"@, spans[0]),
            ),
            Some(decl_id) => {
                if spans.len() == 1 {
                    &&& progress matches ExportProgress::Done(statement, exportable, reported)
                    &&& statement.is_call(covering(spans), Type::Unknown)
                    &&& is_bare_call(statement.call(), spans[0], decl_id)
                    &&& exportable is None
                    &&& reports(
                        reported,
                        None,
                        ErrorView::MissingPositional("def or env keyword"@, spans[0].past()),
                    )
                } else if working_set.span_contents(spans[1]) == word("def") {
                    exists|answer: DefProgress, call: Call|
                        {
                            &&& #[trigger] begins_def(
                                working_set,
                                part(spans, 1, spans.len() as int),
                                answer,
                            )
                            &&& is_bare_call(call, spans[0], decl_id)
                            &&& #[trigger] follows_def(working_set, spans, call, answer, progress)
                        }
                } else if working_set.span_contents(spans[1]) == word("env") {
                    match working_set.find_decl(word("export env")) {
                        None => progress.is_given_up(
                            spans,
                            ErrorView::InternalError("missing 'export env' command"@, spans[0]),
                        ),
                        Some(env_id) => if spans.len() > 2 {
                            &&& progress matches ExportProgress::Parse(
                                ExportState::EnvName { spans: s, asked, call },
                            )
                            &&& s@ == spans
                            &&& asked == spans[2]
                            &&& is_bare_call(call, covering(part(spans, 0, 2)), env_id)
                        } else {
                            &&& progress matches ExportProgress::Done(
                                statement,
                                exportable,
                                reported,
                            )
                            &&& statement.is_call(covering(spans), Type::Unknown)
                            &&& is_bare_call(
                                statement.call(),
                                covering(part(spans, 0, 2)),
                                env_id,
                            )
                            &&& exportable is None
                            &&& reports(
                                reported,
                                None,
                                ErrorView::MissingPositional(
                                    "environment variable name"@,
                                    spans[1].past(),
                                ),
                            )
                        },
                    }
                } else {
                    &&& progress matches ExportProgress::Done(statement, exportable, reported)
                    &&& statement.is_call(covering(spans), Type::Unknown)
                    &&& is_bare_call(statement.call(), spans[0], decl_id)
                    &&& exportable is None
                    &&& reports(
                        reported,
                        None,
                        ErrorView::Expected("def or env keyword"@, spans[1]),
                    )
                }
            },
        }
    }
}

/// Whether `call` is the call of `decl_id` at `head` without arguments.
pub open spec fn is_bare_call(call: Call, head: Span, decl_id: usize) -> bool {
    &&& call.head == head
    &&& call.decl_id == decl_id
    &&& call.positional@.len() == 0
    &&& call.named@.len() == 0
}

/// Parses `export def name parameters body` or `export env name block`.
///
/// The working set is not changed yet.
pub fn parse_export(working_set: &mut WorkingSet, spans: &[Span]) -> (progress: ExportProgress)
    ensures
        final(working_set)@ == old(working_set)@,
        begins_export(old(working_set)@, spans@, progress),
{
    if spans.len() == 0 {
        return ExportProgress::Done(
            garbage_statement(spans),
            None,
            or_unknown_state(None, "got empty input for parsing export statement", span(spans)),
        );
    }
    if !is_word(working_set.get_span_contents(spans[0]), "export") {
        return ExportProgress::Done(
            garbage_statement(spans),
            None,
            or_unknown_state(None, "expected export statement", span(spans)),
        );
    }
    let decl_id = match working_set.find_decl("export".as_bytes()) {
        Some(id) => id,
        None => {
            return ExportProgress::Done(
                garbage_statement(spans),
                None,
                or_internal_error(None, "missing export command", spans[0]),
            );
        },
    };
    let call = Call::new(spans[0], decl_id);
    if spans.len() == 1 {
        return ExportProgress::Done(
            call_statement(call, span(spans), Type::Unknown),
            None,
            or_missing_positional(None, "def or env keyword", spans[0].past()),
        );
    }
    if is_word(working_set.get_span_contents(spans[1]), "def") {
        let rest = vstd::slice::slice_subrange(spans, 1, spans.len());
        let answer = parse_def(working_set, rest);
        let progress = follow_def(working_set, spans_to_vec(spans), call, answer);
        proof {
            assert(rest@ == part(spans@, 1, spans@.len() as int));
            assert(begins_def(working_set@, part(spans@, 1, spans@.len() as int), answer));
            assert(is_bare_call(call, spans@[0], decl_id));
            assert(follows_def(working_set@, spans@, call, answer, progress));
        }
        progress
    } else if is_word(working_set.get_span_contents(spans[1]), "env") {
        let env_id = match working_set.find_decl("export env".as_bytes()) {
            Some(id) => id,
            None => {
                return ExportProgress::Done(
                    garbage_statement(spans),
                    None,
                    or_internal_error(None, "missing 'export env' command", spans[0]),
                );
            },
        };
        let both = vstd::slice::slice_subrange(spans, 0, 2);
        let call = Call::new(span(both), env_id);
        if spans.len() > 2 {
            ExportProgress::Parse(
                ExportState::EnvName { spans: spans_to_vec(spans), asked: spans[2], call },
            )
        } else {
            ExportProgress::Done(
                call_statement(call, span(spans), Type::Unknown),
                None,
                or_missing_positional(None, "environment variable name", spans[1].past()),
            )
        }
    } else {
        ExportProgress::Done(
            call_statement(call, span(spans), Type::Unknown),
            None,
            or_expected(None, "def or env keyword", spans[1]),
        )
    }
}

} // verus!

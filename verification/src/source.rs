//! `source file`: the statements of another file, parsed into this session.

use vstd::prelude::*;
use crate::ast::{call_statement, garbage_statement, Block, Call, Expr, Expression, Statement, Type};
use crate::bytes::{is_text, is_word, string_from_utf8, text_bytes, to_vec, word};
use crate::error::{first_error, or_error, ErrorView, ParseError};
use crate::model::WorkingSetView;
use crate::request::{
    call_request, or_unknown_state, part, part_to_vec, push_positional, reports, token, token_at,
    CallRequest, ParsedCall,
};
use crate::span::{covering, span, spans_to_vec, Span};
use crate::working_set::WorkingSet;

verus! {

/// A `source` statement whose call is to be parsed by the caller.
#[derive(Debug, PartialEq, Eq)]
pub struct SourceCall {
    /// The tokens of the statement, `source` first.
    pub spans: Vec<Span>,
    /// The command `source`.
    pub decl_id: usize,
}

/// A `source` statement whose file is to be read and parsed by the caller.
#[derive(Debug, PartialEq, Eq)]
pub struct SourceFile {
    /// The tokens of the statement, `source` first.
    pub spans: Vec<Span>,
    /// The call as the caller parsed it.
    pub call: Call,
    /// The name of the file.
    pub filename: String,
    /// The first error so far.
    pub error: Option<ParseError>,
}

/// What the caller made of the file of a `source` statement.
#[derive(Debug, PartialEq, Eq)]
pub enum Sourced {
    /// The path leads to no file that can be read.
    NotFound,
    /// The file was parsed, into the same working set: its block, and the
    /// error of the parsing.
    Parsed { block: Block, error: Option<ParseError> },
}

/// How far the parsing of a `source` statement has come.
#[derive(Debug, PartialEq, Eq)]
pub enum SourceProgress {
    /// The caller is to parse the call that the state asks for.
    ParseCall(SourceCall),
    /// The caller is to read the file that the state names and to parse it
    /// as a whole, into the same working set.
    ReadFile(SourceFile),
    /// The statement and the first error met.
    Done(Statement, Option<ParseError>),
}

impl SourceProgress {
    /// Whether this is the answer to a statement that is given up: a garbage
    /// statement over all of `spans`, and `error` unless `earlier` is there.
    pub open spec fn is_given_up(
        self,
        spans: Seq<Span>,
        earlier: Option<ParseError>,
        error: ErrorView,
    ) -> bool {
        &&& self matches SourceProgress::Done(statement, reported)
        &&& statement.is_garbage(covering(spans))
        &&& reports(reported, earlier, error)
    }
}

/// Whether `progress` is how `parse_source` answers the tokens `spans` in
/// `working_set`.
pub open spec fn begins_source(
    working_set: WorkingSetView,
    spans: Seq<Span>,
    progress: SourceProgress,
) -> bool {
    match working_set.find_decl(word("source")) {
        Some(decl_id) if spans.len() > 0 && working_set.span_contents(spans[0]) == word(
            "source",
        ) => {
            &&& progress matches SourceProgress::ParseCall(state)
            &&& state.spans@ == spans
            &&& state.decl_id == decl_id
        },
        _ => progress.is_given_up(
            spans,
            None,
            ErrorView::UnknownState(
                "internal error: source statement unparseable"@,
                covering(spans),
            ),
        ),
    }
}

/// Parses `source file`.
///
/// A first token other than `source`, or a working set that does not know
/// the command `source`, gives a garbage statement and the error of an
/// unknown state. Otherwise the caller is to parse the statement as a call of
/// `source`. The working set is not changed.
pub fn parse_source(working_set: &mut WorkingSet, spans: &[Span]) -> (progress: SourceProgress)
    ensures
        final(working_set)@ == old(working_set)@,
        begins_source(old(working_set)@, spans@, progress),
{
    if spans.len() > 0 && is_word(working_set.get_span_contents(spans[0]), "source") {
        match working_set.find_decl("source".as_bytes()) {
            Some(decl_id) => {
                return SourceProgress::ParseCall(
                    SourceCall { spans: spans_to_vec(spans), decl_id },
                );
            },
            None => {},
        }
    }
    SourceProgress::Done(
        garbage_statement(spans),
        or_unknown_state(None, "internal error: source statement unparseable", span(spans)),
    )
}

impl SourceCall {
    /// The call that the caller is to parse: the tokens after `source` as the
    /// arguments of the command `source`.
    pub fn request(&self) -> (request: CallRequest)
        ensures
            request.head == token_at(self.spans@, 0),
            request.arguments@ == part(self.spans@, 1, self.spans@.len() as int),
            request.decl_id == self.decl_id,
    {
        call_request(self.spans.as_slice(), self.decl_id)
    }

    /// Whether `progress` is how the statement goes on in `working_set` with
    /// the call that the caller parsed.
    ///
    /// Without a second token the statement is the call, with its error. A
    /// second token that is no UTF-8 text gives the statement up. Otherwise
    /// the second token names the file, which the caller is asked to read and
    /// parse.
    pub open spec fn steps(
        self,
        working_set: WorkingSetView,
        parsed: ParsedCall,
        progress: SourceProgress,
    ) -> bool {
        if self.spans@.len() < 2 {
            &&& progress matches SourceProgress::Done(statement, reported)
            &&& statement.is_call(covering(self.spans@), Type::Unknown)
            &&& statement.call() == parsed.call
            &&& reported == parsed.error
        } else if !is_text(working_set.span_contents(self.spans@[1])) {
            progress.is_given_up(self.spans@, parsed.error, ErrorView::NonUtf8(self.spans@[1]))
        } else {
            &&& progress matches SourceProgress::ReadFile(file)
            &&& file.spans == self.spans
            &&& file.call == parsed.call
            &&& text_bytes(file.filename@) == working_set.span_contents(self.spans@[1])
            &&& file.error == parsed.error
        }
    }

    /// Goes on with the call that the caller parsed. The working set is not
    /// changed.
    pub fn resume(self, working_set: &mut WorkingSet, parsed: ParsedCall) -> (progress:
        SourceProgress)
        ensures
            final(working_set)@ == old(working_set)@,
            self.steps(old(working_set)@, parsed, progress),
    {
        if self.spans.len() < 2 {
            return SourceProgress::Done(
                call_statement(parsed.call, span(self.spans.as_slice()), Type::Unknown),
                parsed.error,
            );
        }
        let name = to_vec(working_set.get_span_contents(self.spans[1]));
        match string_from_utf8(name) {
            Some(filename) => SourceProgress::ReadFile(
                SourceFile { spans: self.spans, call: parsed.call, filename, error: parsed.error },
            ),
            None => SourceProgress::Done(
                garbage_statement(self.spans.as_slice()),
                match parsed.error {
                    Some(earlier) => Some(earlier),
                    None => Some(ParseError::NonUtf8(self.spans[1])),
                },
            ),
        }
    }
}

/// The expression that hands the block of a sourced file to the evaluator:
/// the number of the block, at the token that names the file.
pub open spec fn is_block_number(expression: Expression, block_id: usize, at: Span) -> bool {
    &&& expression.expr == Expr::Int(block_id as i64)
    &&& expression.span == at
    &&& expression.ty == Type::Unknown
    &&& expression.custom_completion is None
}

impl SourceFile {
    /// The file that the caller is to read and parse.
    pub fn request(&self) -> (filename: &String)
        ensures
            filename == self.filename,
    {
        &self.filename
    }

    /// Whether `progress`, with the working set `after`, is how the statement
    /// ends in the working set `before` with what the caller made of the
    /// file.
    ///
    /// No file: the statement is the call, and the file is reported as not
    /// found at the second token. A file that did not parse: the statement is
    /// the call, spanning the tokens after `source`, with the error of the
    /// file. A file that parsed: its block is added, and the statement is the
    /// call with the number of the block as one more argument.
    pub open spec fn steps(
        self,
        before: WorkingSetView,
        found: Sourced,
        after: WorkingSetView,
        progress: SourceProgress,
    ) -> bool {
        match found {
            Sourced::NotFound => {
                &&& after == before
                &&& progress matches SourceProgress::Done(statement, reported)
                &&& statement.is_call(covering(self.spans@), Type::Unknown)
                &&& statement.call() == self.call
                &&& reports(
                    reported,
                    self.error,
                    ErrorView::FileNotFound(self.filename@, token_at(self.spans@, 1)),
                )
            },
            Sourced::Parsed { block, error: Some(failure) } => {
                &&& after == before
                &&& progress matches SourceProgress::Done(statement, reported)
                &&& statement.is_call(
                    covering(part(self.spans@, 1, self.spans@.len() as int)),
                    Type::Unknown,
                )
                &&& statement.call() == self.call
                &&& reported == first_error(self.error, Some(failure))
            },
            Sourced::Parsed { block, error: None } => {
                &&& after == before.add_block(block)
                &&& progress matches SourceProgress::Done(statement, reported)
                &&& statement.is_call(covering(self.spans@), Type::Unknown)
                &&& statement.call().head == self.call.head
                &&& statement.call().decl_id == self.call.decl_id
                &&& statement.call().named@ == self.call.named@
                &&& statement.call().positional@.len() == self.call.positional@.len() + 1
                &&& statement.call().positional@.drop_last() == self.call.positional@
                &&& is_block_number(
                    statement.call().positional@.last(),
                    before.blocks.len() as usize,
                    token_at(self.spans@, 1),
                )
                &&& reported == self.error
            },
        }
    }

    /// Ends the statement with what the caller made of the file.
    pub fn resume(self, working_set: &mut WorkingSet, found: Sourced) -> (progress: SourceProgress)
        ensures
            self.steps(old(working_set)@, found, final(working_set)@, progress),
    {
        let second = token(self.spans.as_slice(), 1);
        match found {
            Sourced::NotFound => SourceProgress::Done(
                call_statement(self.call, span(self.spans.as_slice()), Type::Unknown),
                match self.error {
                    Some(earlier) => Some(earlier),
                    None => Some(ParseError::FileNotFound(self.filename, second)),
                },
            ),
            Sourced::Parsed { block, error: Some(failure) } => {
                let rest = part_to_vec(self.spans.as_slice(), 1, self.spans.len());
                SourceProgress::Done(
                    call_statement(self.call, span(rest.as_slice()), Type::Unknown),
                    or_error(self.error, Some(failure)),
                )
            },
            Sourced::Parsed { block, error: None } => {
                let block_id = working_set.add_block(block);
                let number = Expression {
                    expr: Expr::Int(#[verifier::truncate] (block_id as i64)),
                    span: second,
                    ty: Type::Unknown,
                    custom_completion: None,
                };
                let ghost before = self.call;
                let call = push_positional(self.call, number);
                assert(call.positional@.drop_last() =~= before.positional@);
                SourceProgress::Done(
                    call_statement(call, span(self.spans.as_slice()), Type::Unknown),
                    self.error,
                )
            },
        }
    }
}

} // verus!

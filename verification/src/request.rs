//! What a keyword parser asks of its caller, and what it gets back.
//!
//! Expressions, signatures and blocks are parsed by the caller. A keyword
//! parser that needs one stops in a state that names a [`Request`]; the
//! caller parses what is asked for, with the same working set, and resumes the
//! state with the result.

use vstd::prelude::*;
use crate::ast::{Call, Expression, SyntaxShape};
use crate::error::{ErrorView, ParseError};
use crate::span::{spans_to_vec, Span};

verus! {

/// Something for the caller to parse.
#[derive(Debug, PartialEq, Eq)]
pub enum Request {
    /// The string, quoted or bare, at the span.
    String(Span),
    /// The parameter list at the span.
    Signature(Span),
    /// The block at the span. `params` holds the shapes of the parameters
    /// that the block is called with, where the parser knows that it has a
    /// parameter list.
    Block { span: Span, params: Option<Vec<SyntaxShape>> },
}

/// A request with its list as a sequence.
pub enum RequestView {
    String(Span),
    Signature(Span),
    Block { span: Span, params: Option<Seq<SyntaxShape>> },
}

impl View for Request {
    type V = RequestView;

    open spec fn view(&self) -> RequestView {
        match *self {
            Request::String(span) => RequestView::String(span),
            Request::Signature(span) => RequestView::Signature(span),
            Request::Block { span, params } => RequestView::Block {
                span,
                params: match params {
                    Some(shapes) => Some(shapes@),
                    None => None,
                },
            },
        }
    }
}

/// A call of a declared command for the caller to parse: the head of the
/// call, the tokens of its arguments, and the command called.
#[derive(Debug, PartialEq, Eq)]
pub struct CallRequest {
    pub head: Span,
    pub arguments: Vec<Span>,
    pub decl_id: usize,
}

/// What the caller made of a call: the call, and the error it met, if any.
#[derive(Debug, PartialEq, Eq)]
pub struct ParsedCall {
    pub call: Call,
    pub error: Option<ParseError>,
}

/// What the caller parsed: the expression, and the error it met, if any.
#[derive(Debug, PartialEq, Eq)]
pub struct Parsed {
    pub expression: Expression,
    pub error: Option<ParseError>,
}

/// Whether `reported` is what a parser reports that was handed `earlier`
/// and then met `own`: the earlier error if there is one, and else its own.
pub open spec fn reports(
    reported: Option<ParseError>,
    earlier: Option<ParseError>,
    own: ErrorView,
) -> bool {
    match earlier {
        Some(_) => reported == earlier,
        None => reported matches Some(error) && error@ == own,
    }
}

/// Whether `reported` is `earlier` if that is an error, and else has no more
/// to say than `own`.
pub open spec fn reports_if(
    reported: Option<ParseError>,
    earlier: Option<ParseError>,
    own: Option<ErrorView>,
) -> bool {
    match own {
        Some(error) => reports(reported, earlier, error),
        None => reported == earlier,
    }
}

/// Whether `after` is `before` with one more positional argument.
pub open spec fn extends(after: Call, before: Call, argument: Expression) -> bool {
    &&& after.head == before.head
    &&& after.decl_id == before.decl_id
    &&& after.positional@ == before.positional@.push(argument)
    &&& after.named@ == before.named@
}

/// Adds a positional argument to a call.
pub fn push_positional(call: Call, argument: Expression) -> (after: Call)
    ensures
        extends(after, call, argument),
{
    let mut call = call;
    call.positional.push(argument);
    call
}

/// The error of a token that is not there.
pub fn or_missing_positional(earlier: Option<ParseError>, what: &str, span: Span) -> (reported:
    Option<ParseError>)
    ensures
        reports(reported, earlier, ErrorView::MissingPositional(what@, span)),
{
    match earlier {
        Some(error) => Some(error),
        None => Some(ParseError::MissingPositional(what.to_owned(), span)),
    }
}

/// The error of a working set that is not in the state counted on.
pub fn or_internal_error(earlier: Option<ParseError>, what: &str, span: Span) -> (reported: Option<
    ParseError,
>)
    ensures
        reports(reported, earlier, ErrorView::InternalError(what@, span)),
{
    match earlier {
        Some(error) => Some(error),
        None => Some(ParseError::InternalError(what.to_owned(), span)),
    }
}

/// The error of input that is not the parser's statement.
pub fn or_unknown_state(earlier: Option<ParseError>, what: &str, span: Span) -> (reported: Option<
    ParseError,
>)
    ensures
        reports(reported, earlier, ErrorView::UnknownState(what@, span)),
{
    match earlier {
        Some(error) => Some(error),
        None => Some(ParseError::UnknownState(what.to_owned(), span)),
    }
}

/// The error of a token that is not the one expected.
pub fn or_expected(earlier: Option<ParseError>, what: &str, span: Span) -> (reported: Option<
    ParseError,
>)
    ensures
        reports(reported, earlier, ErrorView::Expected(what@, span)),
{
    match earlier {
        Some(error) => Some(error),
        None => Some(ParseError::Expected(what.to_owned(), span)),
    }
}

/// The token at `index`, and the empty span at 0 if there is none.
pub open spec fn token_at(spans: Seq<Span>, index: int) -> Span {
    if 0 <= index < spans.len() {
        spans[index]
    } else {
        Span { start: 0, end: 0 }
    }
}

/// The token at `index`.
pub fn token(spans: &[Span], index: usize) -> (at: Span)
    ensures
        at == token_at(spans@, index as int),
{
    if index < spans.len() {
        spans[index]
    } else {
        Span { start: 0, end: 0 }
    }
}

/// The part of `spans` from `from` up to `to`, and nothing if there is no
/// such part.
pub open spec fn part(spans: Seq<Span>, from: int, to: int) -> Seq<Span> {
    if 0 <= from <= to <= spans.len() {
        spans.subrange(from, to)
    } else {
        Seq::empty()
    }
}

/// The spans from `from` up to `to`.
pub fn part_to_vec(spans: &[Span], from: usize, to: usize) -> (tokens: Vec<Span>)
    ensures
        tokens@ == part(spans@, from as int, to as int),
{
    if from <= to && to <= spans.len() {
        spans_to_vec(vstd::slice::slice_subrange(spans, from, to))
    } else {
        Vec::new()
    }
}

/// The request to parse the call whose tokens are `spans`, the head first.
pub fn call_request(spans: &[Span], decl_id: usize) -> (request: CallRequest)
    ensures
        request.head == token_at(spans@, 0),
        request.arguments@ == part(spans@, 1, spans@.len() as int),
        request.decl_id == decl_id,
{
    CallRequest { head: token(spans, 0), arguments: part_to_vec(spans, 1, spans.len()), decl_id }
}

} // verus!

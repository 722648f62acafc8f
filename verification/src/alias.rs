//! `alias name = replacement...`: another spelling for a sequence of tokens.

use vstd::prelude::*;
use crate::ast::{call_statement, garbage, garbage_statement, single_statement, Statement, Type};
use crate::bytes::{is_word, to_vec, trim_double_quotes, without_double_quotes, word};
use crate::error::{ErrorView, ParseError};
use crate::model::WorkingSetView;
use crate::request::{
    call_request, or_internal_error, part, part_to_vec, reports, token_at, CallRequest, ParsedCall,
};
use crate::span::{covering, span, spans_to_vec, Span};
use crate::working_set::WorkingSet;

verus! {

/// An `alias` statement whose name is to be checked by the caller.
#[derive(Debug, PartialEq, Eq)]
pub struct AliasCheck {
    /// The tokens of the statement, `alias` first.
    pub spans: Vec<Span>,
}

/// An `alias` statement whose call is to be parsed by the caller.
#[derive(Debug, PartialEq, Eq)]
pub struct AliasCall {
    /// The tokens of the statement, `alias` first.
    pub spans: Vec<Span>,
    /// The command `alias`.
    pub decl_id: usize,
}

/// How far the parsing of an `alias` statement has come.
#[derive(Debug, PartialEq, Eq)]
pub enum AliasProgress {
    /// The caller is to check the tokens of the state as those of a
    /// statement that gives something a name, and to resume with the verdict.
    CheckName(AliasCheck),
    /// The caller is to parse the call that the state asks for.
    ParseCall(AliasCall),
    /// The statement and the error met.
    Done(Statement, Option<ParseError>),
}

/// Whether `statement` and `reported` are the answer to an `alias` statement
/// that cannot be parsed.
pub open spec fn is_unparseable_alias(
    spans: Seq<Span>,
    statement: Statement,
    reported: Option<ParseError>,
) -> bool {
    &&& statement.is_garbage(covering(spans))
    &&& reports(
        reported,
        None,
        ErrorView::InternalError("Alias statement unparseable"@, covering(spans)),
    )
}

/// Whether `progress` is how `parse_alias` answers the tokens `spans` in
/// `working_set`.
pub open spec fn begins_alias(
    working_set: WorkingSetView,
    spans: Seq<Span>,
    progress: AliasProgress,
) -> bool {
    if spans.len() > 0 && working_set.span_contents(spans[0]) == word("alias") {
        progress matches AliasProgress::CheckName(check) && check.spans@ == spans
    } else {
        progress matches AliasProgress::Done(statement, reported) && is_unparseable_alias(
            spans,
            statement,
            reported,
        )
    }
}

/// Parses `alias name = replacement...`.
///
/// Anything that does not start with `alias` gives a garbage statement and
/// an internal error. Otherwise the caller is to check the name. The working
/// set is not changed.
pub fn parse_alias(working_set: &mut WorkingSet, spans: &[Span]) -> (progress: AliasProgress)
    ensures
        final(working_set)@ == old(working_set)@,
        begins_alias(old(working_set)@, spans@, progress),
{
    if spans.len() > 0 && is_word(working_set.get_span_contents(spans[0]), "alias") {
        AliasProgress::CheckName(AliasCheck { spans: spans_to_vec(spans) })
    } else {
        AliasProgress::Done(
            garbage_statement(spans),
            or_internal_error(None, "Alias statement unparseable", span(spans)),
        )
    }
}

impl AliasCheck {
    /// Goes on with the verdict on the name.
    ///
    /// A verdict against the name ends the statement: the garbage expression
    /// at the verdict's span, and the verdict's error. Otherwise the call of
    /// the command `alias` is asked for; a working set that does not know that
    /// command gives a garbage statement and an internal error. The working
    /// set is not changed.
    pub fn resume(
        self,
        working_set: &mut WorkingSet,
        verdict: Option<(Span, ParseError)>,
    ) -> (progress: AliasProgress)
        ensures
            final(working_set)@ == old(working_set)@,
            match verdict {
                Some((at, error)) => {
                    &&& progress matches AliasProgress::Done(statement, reported)
                    &&& statement matches Statement::Pipeline(pipeline)
                    &&& pipeline.expressions@.len() == 1
                    &&& pipeline.expressions@[0].is_garbage_at(at)
                    &&& reported == Some(error)
                },
                None => match old(working_set)@.find_decl(word("alias")) {
                    Some(decl_id) if self.spans@.len() > 0 => {
                        &&& progress matches AliasProgress::ParseCall(call)
                        &&& call.spans == self.spans
                        &&& call.decl_id == decl_id
                    },
                    _ => {
                        &&& progress matches AliasProgress::Done(statement, reported)
                        &&& is_unparseable_alias(self.spans@, statement, reported)
                    },
                },
            },
    {
        match verdict {
            Some((at, error)) => AliasProgress::Done(single_statement(garbage(at)), Some(error)),
            None => match working_set.find_decl("alias".as_bytes()) {
                Some(decl_id) if self.spans.len() > 0 => AliasProgress::ParseCall(
                    AliasCall { spans: self.spans, decl_id },
                ),
                _ => AliasProgress::Done(
                    garbage_statement(self.spans.as_slice()),
                    or_internal_error(
                        None,
                        "Alias statement unparseable",
                        span(self.spans.as_slice()),
                    ),
                ),
            },
        }
    }
}

/// The working set after the alias statement with the tokens `spans` was
/// parsed: with four tokens or more, the second, without its double quotes,
/// stands for the tokens from the fourth on.
pub open spec fn with_alias(working_set: WorkingSetView, spans: Seq<Span>) -> WorkingSetView {
    if spans.len() >= 4 {
        working_set.add_alias(
            without_double_quotes(working_set.span_contents(spans[1])),
            spans.subrange(3, spans.len() as int),
        )
    } else {
        working_set
    }
}

impl AliasCall {
    /// The call that the caller is to parse: the tokens after `alias` as the
    /// arguments of the command `alias`.
    pub fn request(&self) -> (request: CallRequest)
        ensures
            request.head == token_at(self.spans@, 0),
            request.arguments@ == part(self.spans@, 1, self.spans@.len() as int),
            request.decl_id == self.decl_id,
    {
        call_request(self.spans.as_slice(), self.decl_id)
    }

    /// Ends the statement with the call that the caller parsed.
    ///
    /// With four tokens or more the alias is recorded. The statement is the
    /// call, whatever it holds; the error of the caller's parsing is dropped.
    pub fn resume(
        self,
        working_set: &mut WorkingSet,
        parsed: ParsedCall,
    ) -> (progress: AliasProgress)
        ensures
            final(working_set)@ == with_alias(old(working_set)@, self.spans@),
            progress matches AliasProgress::Done(statement, reported),
            progress matches AliasProgress::Done(statement, reported) ==> {
                &&& statement.is_call(covering(self.spans@), Type::Unknown)
                &&& statement.call() == parsed.call
                &&& reported is None
            },
    {
        if self.spans.len() >= 4 {
            let name = to_vec(trim_double_quotes(working_set.get_span_contents(self.spans[1])));
            let replacement = part_to_vec(self.spans.as_slice(), 3, self.spans.len());
            working_set.add_alias(name, replacement);
        }
        AliasProgress::Done(
            call_statement(parsed.call, span(self.spans.as_slice()), Type::Unknown),
            None,
        )
    }
}

} // verus!

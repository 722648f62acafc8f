//! `let pattern = expression...`: variable bindings.

use vstd::prelude::*;
use crate::ast::{
    call_statement, garbage, garbage_statement, single_statement, Call, Expression, Statement, Type,
};
use crate::bytes::{is_word, word};
use crate::error::{first_error, or_error, ErrorView, ParseError};
use crate::model::WorkingSetView;
use crate::request::{
    call_request, or_unknown_state, part, part_to_vec, reports, token, token_at, CallRequest,
    Parsed, ParsedCall,
};
use crate::span::{covering, span, spans_to_vec, Span};
use crate::working_set::WorkingSet;

verus! {

/// The variable that holds the configuration. A `let` does not change its type.
pub const CONFIG_VARIABLE_ID: usize = 2;

/// A `let` statement whose name is to be checked by the caller.
#[derive(Debug, PartialEq, Eq)]
pub struct LetCheck {
    /// The tokens of the statement, `let` first.
    pub spans: Vec<Span>,
}

/// A `let` statement whose right side is to be parsed by the caller.
#[derive(Debug, PartialEq, Eq)]
pub struct LetValue {
    /// The tokens of the statement, `let` first.
    pub spans: Vec<Span>,
    /// The command `let`.
    pub decl_id: usize,
    /// The index of the `=` token.
    pub equals: usize,
}

/// A `let` statement whose left side is to be parsed by the caller.
#[derive(Debug, PartialEq, Eq)]
pub struct LetVariable {
    /// The tokens of the statement, `let` first.
    pub spans: Vec<Span>,
    /// The command `let`.
    pub decl_id: usize,
    /// The index of the `=` token.
    pub equals: usize,
    /// The right side.
    pub value: Expression,
    /// The error of the right side.
    pub error: Option<ParseError>,
}

/// A `let` statement without a usable `=`, to be parsed as a call.
#[derive(Debug, PartialEq, Eq)]
pub struct LetCall {
    /// The tokens of the statement, `let` first.
    pub spans: Vec<Span>,
    /// The command `let`.
    pub decl_id: usize,
}

/// How far the parsing of a `let` statement has come.
#[derive(Debug, PartialEq, Eq)]
pub enum LetProgress {
    /// The caller is to check the tokens of the state as those of a
    /// statement that gives something a name, and to resume with the verdict.
    CheckName(LetCheck),
    /// The caller is to parse the tokens from the `=` on as the keyword `=`
    /// followed by an expression.
    ParseValue(LetValue),
    /// The caller is to parse the tokens between `let` and `=` as a variable
    /// with an optional type.
    ParseVariable(LetVariable),
    /// The caller is to parse the call that the state asks for.
    ParseCall(LetCall),
    /// The statement and the first error met.
    Done(Statement, Option<ParseError>),
}

/// Whether `statement` and `reported` are the answer to a `let` statement
/// that cannot be parsed.
pub open spec fn is_unparseable_let(
    spans: Seq<Span>,
    statement: Statement,
    reported: Option<ParseError>,
) -> bool {
    &&& statement.is_garbage(covering(spans))
    &&& reports(
        reported,
        None,
        ErrorView::UnknownState("internal error: let statement unparseable"@, covering(spans)),
    )
}

/// Whether token `k` is an `=` that something follows.
pub open spec fn is_equals(working_set: WorkingSetView, spans: Seq<Span>, k: int) -> bool {
    &&& 0 <= k
    &&& k + 1 < spans.len()
    &&& working_set.span_contents(spans[k]) == word("=")
}

/// Whether token `k` is the first `=` that something follows.
pub open spec fn is_first_equals(working_set: WorkingSetView, spans: Seq<Span>, k: int) -> bool {
    &&& is_equals(working_set, spans, k)
    &&& forall|j: int| 0 <= j < k ==> !is_equals(working_set, spans, j)
}

/// Whether the statement is split at an `=`: it has four tokens or more, and
/// one of them is an `=` that something follows.
pub open spec fn splits(working_set: WorkingSetView, spans: Seq<Span>) -> bool {
    spans.len() >= 4 && exists|k: int| is_equals(working_set, spans, k)
}

fn find_equals(working_set: &WorkingSet, spans: &[Span]) -> (at: Option<usize>)
    ensures
        match at {
            Some(k) => is_first_equals(working_set@, spans@, k as int),
            None => forall|k: int| !is_equals(working_set@, spans@, k),
        },
{
    let mut i: usize = 0;
    while i < spans.len()
        invariant
            i <= spans@.len(),
            forall|j: int| 0 <= j < i ==> !is_equals(working_set@, spans@, j),
        decreases spans@.len() - i,
    {
        if spans.len() - i > 1 && is_word(working_set.get_span_contents(spans[i]), "=") {
            return Some(i);
        }
        i += 1;
    }
    None
}

/// Whether `progress` is how `parse_let` answers the tokens `spans` in
/// `working_set`.
pub open spec fn begins_let(
    working_set: WorkingSetView,
    spans: Seq<Span>,
    progress: LetProgress,
) -> bool {
    if spans.len() > 0 && working_set.span_contents(spans[0]) == word("let") {
        progress matches LetProgress::CheckName(check) && check.spans@ == spans
    } else {
        progress matches LetProgress::Done(statement, reported) && is_unparseable_let(
            spans,
            statement,
            reported,
        )
    }
}

/// Parses `let pattern = expression...`.
///
/// Anything that does not start with `let` gives a garbage statement and the
/// error of an unknown state. Otherwise the caller is to check the name. The
/// working set is not changed.
pub fn parse_let(working_set: &mut WorkingSet, spans: &[Span]) -> (progress: LetProgress)
    ensures
        final(working_set)@ == old(working_set)@,
        begins_let(old(working_set)@, spans@, progress),
{
    if spans.len() > 0 && is_word(working_set.get_span_contents(spans[0]), "let") {
        LetProgress::CheckName(LetCheck { spans: spans_to_vec(spans) })
    } else {
        LetProgress::Done(
            garbage_statement(spans),
            or_unknown_state(None, "internal error: let statement unparseable", span(spans)),
        )
    }
}

impl LetCheck {
    /// Goes on with the verdict on the name.
    ///
    /// A verdict against the name ends the statement: the garbage expression
    /// at the verdict's span, and the verdict's error. A working set that
    /// does not know the command `let` gives a garbage statement and the
    /// error of an unknown state. Otherwise, where the statement is split at
    /// an `=`, the right side is asked for first, from the first such `=` on:
    /// the variable is not to be in scope while its value is parsed. Where
    /// it is not split, the statement is asked for as a call of `let`. The
    /// working set is not changed.
    pub fn resume(
        self,
        working_set: &mut WorkingSet,
        verdict: Option<(Span, ParseError)>,
    ) -> (progress: LetProgress)
        ensures
            final(working_set)@ == old(working_set)@,
            match verdict {
                Some((at, error)) => {
                    &&& progress matches LetProgress::Done(statement, reported)
                    &&& statement matches Statement::Pipeline(pipeline)
                    &&& pipeline.expressions@.len() == 1
                    &&& pipeline.expressions@[0].is_garbage_at(at)
                    &&& reported == Some(error)
                },
                None => match old(working_set)@.find_decl(word("let")) {
                    Some(decl_id) if self.spans@.len() > 0 => if splits(
                        old(working_set)@,
                        self.spans@,
                    ) {
                        &&& progress matches LetProgress::ParseValue(value)
                        &&& value.spans == self.spans
                        &&& value.decl_id == decl_id
                        &&& is_first_equals(old(working_set)@, self.spans@, value.equals as int)
                    } else {
                        &&& progress matches LetProgress::ParseCall(call)
                        &&& call.spans == self.spans
                        &&& call.decl_id == decl_id
                    },
                    _ => {
                        &&& progress matches LetProgress::Done(statement, reported)
                        &&& is_unparseable_let(self.spans@, statement, reported)
                    },
                },
            },
    {
        match verdict {
            Some((at, error)) => LetProgress::Done(single_statement(garbage(at)), Some(error)),
            None => match working_set.find_decl("let".as_bytes()) {
                Some(decl_id) if self.spans.len() > 0 => {
                    if self.spans.len() >= 4 {
                        match find_equals(working_set, self.spans.as_slice()) {
                            Some(equals) => {
                                return LetProgress::ParseValue(
                                    LetValue { spans: self.spans, decl_id, equals },
                                );
                            },
                            None => {},
                        }
                    }
                    LetProgress::ParseCall(LetCall { spans: self.spans, decl_id })
                },
                _ => LetProgress::Done(
                    garbage_statement(self.spans.as_slice()),
                    or_unknown_state(
                        None,
                        "internal error: let statement unparseable",
                        span(self.spans.as_slice()),
                    ),
                ),
            },
        }
    }
}

impl LetValue {
    /// Goes on with the right side: the left side is asked for.
    pub fn resume(self, parsed: Parsed) -> (progress: LetProgress)
        ensures
            progress == LetProgress::ParseVariable(
                LetVariable {
                    spans: self.spans,
                    decl_id: self.decl_id,
                    equals: self.equals,
                    value: parsed.expression,
                    error: parsed.error,
                },
            ),
    {
        LetProgress::ParseVariable(
            LetVariable {
                spans: self.spans,
                decl_id: self.decl_id,
                equals: self.equals,
                value: parsed.expression,
                error: parsed.error,
            },
        )
    }
}

/// The working set after a `let` gave a variable a value: the variable that
/// the left side stands for, unless it is the configuration, has the type of
/// the value.
pub open spec fn with_binding(
    working_set: WorkingSetView,
    variable: Expression,
    value: Expression,
) -> WorkingSetView {
    match variable.spec_as_var() {
        Some(id) if id != CONFIG_VARIABLE_ID => working_set.set_variable_type(id, value.ty),
        _ => working_set,
    }
}

impl LetVariable {
    /// The tokens that the caller is to parse as the variable: those between
    /// `let` and the `=`.
    pub fn request(&self) -> (tokens: Vec<Span>)
        ensures
            tokens@ == part(self.spans@, 1, self.equals as int),
    {
        part_to_vec(self.spans.as_slice(), 1, self.equals)
    }

    /// Ends the statement with the left side.
    ///
    /// The variable takes the type of the value. The statement is the call of
    /// `let` with the variable and the value as its arguments; the error of
    /// the right side goes before that of the left.
    pub fn resume(self, working_set: &mut WorkingSet, parsed: Parsed) -> (progress: LetProgress)
        ensures
            final(working_set)@ == with_binding(
                old(working_set)@,
                parsed.expression,
                self.value,
            ),
            progress matches LetProgress::Done(statement, reported),
            progress matches LetProgress::Done(statement, reported) ==> {
                &&& statement.is_call(covering(self.spans@), Type::Unknown)
                &&& statement.call().head == token_at(self.spans@, 0)
                &&& statement.call().decl_id == self.decl_id
                &&& statement.call().positional@ == seq![parsed.expression, self.value]
                &&& statement.call().named@.len() == 0
                &&& reported == first_error(self.error, parsed.error)
            },
    {
        let error = or_error(self.error, parsed.error);
        match parsed.expression.as_var() {
            Some(id) => {
                if id != CONFIG_VARIABLE_ID {
                    working_set.set_variable_type(id, self.value.ty.copy());
                }
            },
            None => {},
        }
        let mut call = Call::new(token(self.spans.as_slice(), 0), self.decl_id);
        call.positional.push(parsed.expression);
        call.positional.push(self.value);
        LetProgress::Done(
            call_statement(call, span(self.spans.as_slice()), Type::Unknown),
            error,
        )
    }
}

impl LetCall {
    /// The call that the caller is to parse: the tokens after `let` as the
    /// arguments of the command `let`.
    pub fn request(&self) -> (request: CallRequest)
        ensures
            request.head == token_at(self.spans@, 0),
            request.arguments@ == part(self.spans@, 1, self.spans@.len() as int),
            request.decl_id == self.decl_id,
    {
        call_request(self.spans.as_slice(), self.decl_id)
    }

    /// Ends the statement with the call that the caller parsed, and its error.
    pub fn resume(self, parsed: ParsedCall) -> (progress: LetProgress)
        ensures
            progress matches LetProgress::Done(statement, reported),
            progress matches LetProgress::Done(statement, reported) ==> {
                &&& statement.is_call(covering(self.spans@), Type::Unknown)
                &&& statement.call() == parsed.call
                &&& reported == parsed.error
            },
    {
        LetProgress::Done(
            call_statement(parsed.call, span(self.spans.as_slice()), Type::Unknown),
            parsed.error,
        )
    }
}

} // verus!

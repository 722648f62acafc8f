//! `def`: command definitions, in two passes.
//!
//! The first pass reserves the name of every definition of a block, so that
//! the bodies can call each other. The second pass parses each definition and
//! puts the command in the place of its reservation.

use vstd::prelude::*;
use vstd::slice::slice_subrange;
use crate::ast::{
    call_statement, garbage_statement, Call, Expr, Signature, SignatureView, Statement, Type,
};
use crate::bytes::{is_word, word};
use crate::decl::{into_block_command, name_bytes, predeclare, DeclView};
use crate::error::{first_error, or_error, ErrorView, ParseError};
use crate::model::WorkingSetView;
use crate::request::{
    extends, or_internal_error, or_missing_positional, or_unknown_state, push_positional, reports,
    reports_if, Parsed, Request, RequestView,
};
use crate::span::{covering, span, spans_to_vec, Span};
use crate::table::lookup;
use crate::working_set::WorkingSet;

verus! {

/// A text, if there is one, as a sequence of characters.
pub open spec fn text_of(text: Option<String>) -> Option<Seq<char>> {
    match text {
        Some(t) => Some(t@),
        None => None,
    }
}

/// What the first pass waits for.
#[derive(Clone, Copy, Debug, PartialEq, Eq, Structural)]
pub enum PredeclPhase {
    /// The name of the command.
    Name,
    /// The parameter list. A scope is open, which the parameters go into.
    Signature,
}

/// The first pass over one definition, stopped for its caller to parse.
#[derive(Debug, PartialEq, Eq)]
pub struct PredeclState {
    pub phase: PredeclPhase,
    /// Where the name stands.
    pub name_span: Span,
    /// Where the parameter list stands.
    pub signature_span: Span,
    /// The name, once it is parsed and if it is a string.
    pub name: Option<String>,
}

/// How far the first pass over one definition has come.
#[derive(Debug, PartialEq, Eq)]
pub enum PredeclProgress {
    /// The caller is to parse what the state asks for and resume it.
    Parse(PredeclState),
    /// The pass is over, with an error if the name was already reserved.
    Done(Option<ParseError>),
}

/// The tokens `def name parameters body` of a statement that defines a
/// command, without a leading `export`; and nothing for any other statement.
pub open spec fn definition_tokens(working_set: WorkingSetView, spans: Seq<Span>) -> Option<
    Seq<Span>,
> {
    if spans.len() == 0 {
        None
    } else {
        let tokens = if working_set.span_contents(spans[0]) == word("export") && spans.len() >= 2 {
            spans.subrange(1, spans.len() as int)
        } else {
            spans
        };
        if working_set.span_contents(tokens[0]) == word("def") && tokens.len() >= 4 {
            Some(tokens)
        } else {
            None
        }
    }
}

impl PredeclState {
    /// How many scopes this pass has entered and not yet left.
    pub open spec fn held_scopes(self) -> int {
        match self.phase {
            PredeclPhase::Name => 0,
            PredeclPhase::Signature => 1,
        }
    }

    /// What the caller is to parse: the name, then the parameter list.
    pub open spec fn requested(self) -> RequestView {
        match self.phase {
            PredeclPhase::Name => RequestView::String(self.name_span),
            PredeclPhase::Signature => RequestView::Signature(self.signature_span),
        }
    }

    /// What the caller is to parse.
    pub fn request(&self) -> (request: Request)
        ensures
            request@ == self.requested(),
    {
        match self.phase {
            PredeclPhase::Name => Request::String(self.name_span),
            PredeclPhase::Signature => Request::Signature(self.signature_span),
        }
    }

    /// Whether `progress`, with the working set `after`, is how this state goes
    /// on from the working set `before` with what the caller parsed.
    pub open spec fn steps(
        self,
        before: WorkingSetView,
        parsed: Parsed,
        after: WorkingSetView,
        progress: PredeclProgress,
    ) -> bool {
        match self.phase {
            PredeclPhase::Name => {
                &&& after == before.enter_scope()
                &&& progress matches PredeclProgress::Parse(next)
                &&& next.phase == PredeclPhase::Signature
                &&& next.name_span == self.name_span
                &&& next.signature_span == self.signature_span
                &&& text_of(next.name) == parsed.expression.spec_as_string()
            },
            PredeclPhase::Signature => match (self.name, parsed.expression.expr) {
                (Some(name), Expr::Signature(signature)) => {
                    let left = before.exit_scope();
                    &&& after == left.add_predecl(
                        DeclView::Predecl { signature: signature@.named_as(name@) },
                    )
                    &&& progress == PredeclProgress::Done(
                        if lookup(left.top().predecls, name_bytes(name@)) is Some {
                            Some(ParseError::DuplicateCommandDef(self.name_span))
                        } else {
                            None
                        },
                    )
                },
                _ => {
                    &&& after == before.exit_scope()
                    &&& progress == PredeclProgress::Done(None)
                },
            },
        }
    }

    /// Goes on with what the caller parsed.
    ///
    /// After the name a scope is entered, so that the parameters do not leak.
    /// After the parameter list that scope is left, and if both a name and a
    /// signature came out, the signature is reserved under the name in the
    /// innermost frame: a name that was already reserved there is reported as
    /// a duplicate. Errors of the caller's parsing are dropped here: the
    /// second pass parses the same text again and reports them.
    pub fn resume(self, working_set: &mut WorkingSet, parsed: Parsed) -> (progress: PredeclProgress)
        ensures
            self.steps(old(working_set)@, parsed, final(working_set)@, progress),
    {
        match self.phase {
            PredeclPhase::Name => {
                let name = parsed.expression.as_string();
                working_set.enter_scope();
                PredeclProgress::Parse(
                    PredeclState {
                        phase: PredeclPhase::Signature,
                        name_span: self.name_span,
                        signature_span: self.signature_span,
                        name,
                    },
                )
            },
            PredeclPhase::Signature => {
                working_set.exit_scope();
                match (self.name, parsed.expression.expr) {
                    (Some(name), Expr::Signature(boxed)) => {
                        let mut signature = *boxed;
                        signature.name = name;
                        let previous = working_set.add_predecl(predeclare(signature));
                        if previous.is_some() {
                            PredeclProgress::Done(
                                Some(ParseError::DuplicateCommandDef(self.name_span)),
                            )
                        } else {
                            PredeclProgress::Done(None)
                        }
                    },
                    _ => PredeclProgress::Done(None),
                }
            },
        }
    }
}

impl PredeclProgress {
    /// How many scopes the pass has entered and not yet left.
    pub open spec fn held_scopes(self) -> int {
        match self {
            PredeclProgress::Parse(state) => state.held_scopes(),
            PredeclProgress::Done(_) => 0,
        }
    }
}

/// How the first pass answers the tokens `spans` in `working_set`.
pub open spec fn begun_predecl(working_set: WorkingSetView, spans: Seq<Span>) -> PredeclProgress {
    match definition_tokens(working_set, spans) {
        Some(tokens) => PredeclProgress::Parse(
            PredeclState {
                phase: PredeclPhase::Name,
                name_span: tokens[1],
                signature_span: tokens[2],
                name: None,
            },
        ),
        None => PredeclProgress::Done(None),
    }
}

/// The first pass over one statement of a block.
///
/// A statement `def name parameters body`, with or without `export` before
/// it, has its name reserved: the pass stops for the caller to parse the
/// name. Any other statement is passed over. The working set is not changed
/// yet.
pub fn parse_def_predecl(working_set: &mut WorkingSet, spans: &[Span]) -> (progress:
    PredeclProgress)
    ensures
        final(working_set)@ == old(working_set)@,
        progress == begun_predecl(old(working_set)@, spans@),
{
    if spans.len() == 0 {
        return PredeclProgress::Done(None);
    }
    let exported = is_word(working_set.get_span_contents(spans[0]), "export") && spans.len() >= 2;
    let tokens = if exported {
        slice_subrange(spans, 1, spans.len())
    } else {
        spans
    };
    if is_word(working_set.get_span_contents(tokens[0]), "def") && tokens.len() >= 4 {
        PredeclProgress::Parse(
            PredeclState {
                phase: PredeclPhase::Name,
                name_span: tokens[1],
                signature_span: tokens[2],
                name: None,
            },
        )
    } else {
        PredeclProgress::Done(None)
    }
}

/// What the second pass waits for.
#[derive(Clone, Copy, Debug, PartialEq, Eq, Structural)]
pub enum DefPhase {
    /// The name of the command.
    Name,
    /// The parameter list. A scope is open, which the parameters go into.
    Signature,
    /// The body. The scope is still open.
    Body,
}

/// The second pass over one definition, stopped for its caller to parse.
#[derive(Debug, PartialEq, Eq)]
pub struct DefState {
    pub phase: DefPhase,
    /// The tokens of the statement, `def` first.
    pub spans: Vec<Span>,
    /// Where the name stands.
    pub name_span: Span,
    /// Where the text stands that the caller is to parse.
    pub asked: Span,
    /// The call of `def` as far as it is built.
    pub call: Call,
    /// The name, once it is parsed and if it is a string.
    pub name: Option<String>,
    /// The signature, once it is parsed and if it is one.
    pub signature: Option<Signature>,
    /// The first error so far.
    pub error: Option<ParseError>,
}

/// How far the second pass over one definition has come.
#[derive(Debug, PartialEq, Eq)]
pub enum DefProgress {
    /// The caller is to parse what the state asks for and resume it.
    Parse(DefState),
    /// The statement and the first error met.
    Done(Statement, Option<ParseError>),
}

impl DefProgress {
    /// How many scopes the pass has entered and not yet left.
    pub open spec fn held_scopes(self) -> int {
        match self {
            DefProgress::Parse(state) => state.held_scopes(),
            DefProgress::Done(..) => 0,
        }
    }
}

/// The working set after a definition's scope was left and the name of the
/// definition, if it has one, was merged into the frame around it.
pub open spec fn closed_definition(
    working_set: WorkingSetView,
    name: Option<String>,
) -> WorkingSetView {
    match name {
        Some(n) => working_set.exit_scope().merge_predecl(name_bytes(n@)),
        None => working_set.exit_scope(),
    }
}

/// The working set after the command `signature` with body `block_id` took
/// the place of the declaration `id`, under the name `name`.
pub open spec fn bound_definition(
    working_set: WorkingSetView,
    id: usize,
    name: Seq<char>,
    signature: SignatureView,
    block_id: usize,
) -> WorkingSetView {
    working_set.replace_decl(
        id,
        DeclView::Block { signature: signature.named_as(name), block_id },
    )
}

fn close_definition(
    working_set: &mut WorkingSet,
    name: Option<String>,
    name_span: Span,
    error: Option<ParseError>,
) -> (reported: Option<ParseError>)
    ensures
        final(working_set)@ == closed_definition(old(working_set)@, name),
        reports_if(
            reported,
            error,
            if name is Some {
                None
            } else {
                Some(
                    ErrorView::UnknownState(
                        "Could not get string from string expression"@,
                        name_span,
                    ),
                )
            },
        ),
{
    working_set.exit_scope();
    match name {
        Some(name) => {
            working_set.merge_predecl(name.as_str().as_bytes());
            error
        },
        None => or_unknown_state(error, "Could not get string from string expression", name_span),
    }
}

impl DefState {
    /// How many scopes this pass has entered and not yet left.
    pub open spec fn held_scopes(self) -> int {
        match self.phase {
            DefPhase::Name => 0,
            DefPhase::Signature => 1,
            DefPhase::Body => 1,
        }
    }

    /// What the caller is to parse: the name, the parameter list, then the
    /// body, as a block that has a parameter list.
    pub open spec fn requested(self) -> RequestView {
        match self.phase {
            DefPhase::Name => RequestView::String(self.asked),
            DefPhase::Signature => RequestView::Signature(self.asked),
            DefPhase::Body => RequestView::Block { span: self.asked, params: Some(Seq::empty()) },
        }
    }

    /// What the caller is to parse.
    pub fn request(&self) -> (request: Request)
        ensures
            request@ == self.requested(),
    {
        match self.phase {
            DefPhase::Name => Request::String(self.asked),
            DefPhase::Signature => Request::Signature(self.asked),
            DefPhase::Body => Request::Block { span: self.asked, params: Some(Vec::new()) },
        }
    }

    /// Whether `progress`, with the working set `after`, is how this state goes
    /// on from the working set `before` with what the caller parsed.
    pub open spec fn steps(
        self,
        before: WorkingSetView,
        parsed: Parsed,
        after: WorkingSetView,
        progress: DefProgress,
    ) -> bool {
        &&& self.phase == DefPhase::Name && self.spans@.len() > 2 ==> {
            &&& after == before.enter_scope()
            &&& progress matches DefProgress::Parse(next)
            &&& next.phase == DefPhase::Signature
            &&& next.spans == self.spans
            &&& next.name_span == self.name_span
            &&& next.asked == self.spans@[2]
            &&& extends(next.call, self.call, parsed.expression)
            &&& text_of(next.name) == parsed.expression.spec_as_string()
            &&& next.signature is None
            &&& next.error == first_error(self.error, parsed.error)
        }
        &&& self.phase == DefPhase::Name && self.spans@.len() <= 2 ==> {
            &&& after == before
            &&& progress matches DefProgress::Done(statement, reported)
            &&& statement.is_call(covering(self.spans@), Type::Unknown)
            &&& extends(statement.call(), self.call, parsed.expression)
            &&& reports(
                reported,
                first_error(self.error, parsed.error),
                ErrorView::MissingPositional("parameters"@, self.asked.past()),
            )
        }
        &&& self.phase == DefPhase::Signature && self.spans@.len() > 3 ==> {
            &&& after == before
            &&& progress matches DefProgress::Parse(next)
            &&& next.phase == DefPhase::Body
            &&& next.spans == self.spans
            &&& next.name_span == self.name_span
            &&& next.asked == self.spans@[3]
            &&& extends(next.call, self.call, parsed.expression)
            &&& next.name == self.name
            &&& next.signature is Some <==> parsed.expression.spec_as_signature() is Some
            &&& next.signature matches Some(s) ==> parsed.expression.spec_as_signature()
                == Some(s@)
            &&& next.error == first_error(self.error, parsed.error)
        }
        &&& self.phase == DefPhase::Signature && self.spans@.len() <= 3 ==> {
            &&& after == closed_definition(before, self.name)
            &&& progress matches DefProgress::Done(statement, reported)
            &&& statement.is_call(covering(self.spans@), Type::Unknown)
            &&& extends(statement.call(), self.call, parsed.expression)
            &&& reports(
                reported,
                first_error(self.error, parsed.error),
                ErrorView::MissingPositional("block"@, self.asked.past()),
            )
        }
        &&& self.phase == DefPhase::Body ==> {
            &&& progress matches DefProgress::Done(statement, reported)
            &&& statement.is_call(covering(self.spans@), Type::Unknown)
            &&& extends(statement.call(), self.call, parsed.expression)
            &&& match (self.name, self.signature, parsed.expression.spec_as_block()) {
                (Some(name), Some(signature), Some(block_id)) => {
                    match before.find_decl(name_bytes(name@)) {
                        Some(id) => {
                            &&& after == closed_definition(
                                bound_definition(before, id, name@, signature@, block_id),
                                self.name,
                            )
                            &&& reported == first_error(self.error, parsed.error)
                        },
                        None => {
                            &&& after == closed_definition(before, self.name)
                            &&& reports(
                                reported,
                                first_error(self.error, parsed.error),
                                ErrorView::InternalError(
                                    "Predeclaration failed to add declaration"@,
                                    self.name_span,
                                ),
                            )
                        },
                    }
                },
                _ => {
                    &&& after == closed_definition(before, self.name)
                    &&& reports_if(
                        reported,
                        first_error(self.error, parsed.error),
                        if self.name is Some {
                            None
                        } else {
                            Some(
                                ErrorView::UnknownState(
                                    "Could not get string from string expression"@,
                                    self.name_span,
                                ),
                            )
                        },
                    )
                },
            }
        }
    }

    /// Goes on with what the caller parsed.
    ///
    /// Whatever was parsed becomes the next positional argument of the call,
    /// and its error is kept unless an earlier one is there.
    ///
    /// - After the name: with a parameter list to come, a scope is entered
    ///   and the list asked for. Without one the statement is done, and the
    ///   parameters are reported missing right after the name.
    /// - After the parameter list: with a body to come, it is asked for.
    ///   Without one the body is reported missing right after the list, and
    ///   the definition is closed.
    /// - After the body: if a name, a signature and a block came out, the
    ///   command takes the place of the declaration that the name stands for;
    ///   that there is none is an internal error. The definition is closed.
    ///
    /// To close a definition is to leave its scope and to merge the reserved
    /// name into the frame around it; a name that is no string is reported.
    pub fn resume(self, working_set: &mut WorkingSet, parsed: Parsed) -> (progress: DefProgress)
        ensures
            self.steps(old(working_set)@, parsed, final(working_set)@, progress),
    {
        let error = or_error(self.error, parsed.error);
        match self.phase {
            DefPhase::Name => {
                let name = parsed.expression.as_string();
                let call = push_positional(self.call, parsed.expression);
                if self.spans.len() > 2 {
                    working_set.enter_scope();
                    let asked = self.spans[2];
                    DefProgress::Parse(
                        DefState {
                            phase: DefPhase::Signature,
                            spans: self.spans,
                            name_span: self.name_span,
                            asked,
                            call,
                            name,
                            signature: None,
                            error,
                        },
                    )
                } else {
                    let error = or_missing_positional(error, "parameters", self.asked.past());
                    DefProgress::Done(
                        call_statement(call, span(self.spans.as_slice()), Type::Unknown),
                        error,
                    )
                }
            },
            DefPhase::Signature => {
                let signature = parsed.expression.as_signature();
                let call = push_positional(self.call, parsed.expression);
                if self.spans.len() > 3 {
                    let asked = self.spans[3];
                    DefProgress::Parse(
                        DefState {
                            phase: DefPhase::Body,
                            spans: self.spans,
                            name_span: self.name_span,
                            asked,
                            call,
                            name: self.name,
                            signature,
                            error,
                        },
                    )
                } else {
                    let error = or_missing_positional(error, "block", self.asked.past());
                    let error = close_definition(working_set, self.name, self.name_span, error);
                    DefProgress::Done(
                        call_statement(call, span(self.spans.as_slice()), Type::Unknown),
                        error,
                    )
                }
            },
            DefPhase::Body => {
                let block_id = parsed.expression.as_block();
                let call = push_positional(self.call, parsed.expression);
                let mut error = error;
                match (&self.name, self.signature, block_id) {
                    (Some(name), Some(signature), Some(block_id)) => {
                        match working_set.find_decl(name.as_str().as_bytes()) {
                            Some(decl_id) => {
                                let mut signature = signature;
                                signature.name = name.clone();
                                working_set.replace_decl(
                                    decl_id,
                                    into_block_command(signature, block_id),
                                );
                            },
                            None => {
                                error = or_internal_error(
                                    error,
                                    "Predeclaration failed to add declaration",
                                    self.name_span,
                                );
                            },
                        }
                    },
                    _ => {},
                }
                let error = close_definition(working_set, self.name, self.name_span, error);
                DefProgress::Done(
                    call_statement(call, span(self.spans.as_slice()), Type::Unknown),
                    error,
                )
            },
        }
    }
}

/// Whether `progress` is how `parse_def` answers the tokens `spans` in
/// `working_set`.
pub open spec fn begins_def(
    working_set: WorkingSetView,
    spans: Seq<Span>,
    progress: DefProgress,
) -> bool {
    if spans.len() == 0 || working_set.span_contents(spans[0]) != word("def") {
        &&& progress matches DefProgress::Done(statement, reported)
        &&& statement.is_garbage(covering(spans))
        &&& reports(
            reported,
            None,
            ErrorView::UnknownState("Expected structure: def <name> [] {}"@, covering(spans)),
        )
    } else {
        match working_set.find_decl(word("def")) {
            None => {
                &&& progress matches DefProgress::Done(statement, reported)
                &&& statement.is_garbage(covering(spans))
                &&& reports(
                    reported,
                    None,
                    ErrorView::InternalError("missing def command"@, spans[0]),
                )
            },
            Some(decl_id) => if spans.len() == 1 {
                &&& progress matches DefProgress::Done(statement, reported)
                &&& statement.is_call(covering(spans), Type::Unknown)
                &&& statement.call().head == spans[0]
                &&& statement.call().decl_id == decl_id
                &&& statement.call().positional@.len() == 0
                &&& statement.call().named@.len() == 0
                &&& reports(
                    reported,
                    None,
                    ErrorView::MissingPositional("definition name"@, spans[0].past()),
                )
            } else {
                &&& progress matches DefProgress::Parse(state)
                &&& state.phase == DefPhase::Name
                &&& state.spans@ == spans
                &&& state.name_span == spans[1]
                &&& state.asked == spans[1]
                &&& state.call.head == spans[0]
                &&& state.call.decl_id == decl_id
                &&& state.call.positional@.len() == 0
                &&& state.call.named@.len() == 0
                &&& state.name is None
                &&& state.signature is None
                &&& state.error is None
            },
        }
    }
}

/// The second pass over `def name parameters body`.
///
/// Anything that does not start with `def` gives a garbage statement and the
/// error of an unknown state; so does a working set that does not know the
/// command `def`, with an internal error. A lone `def` gives the call without
/// arguments and reports the name missing right after it. Otherwise the pass
/// stops for the caller to parse the name. The working set is not changed yet.
pub fn parse_def(working_set: &mut WorkingSet, spans: &[Span]) -> (progress: DefProgress)
    ensures
        final(working_set)@ == old(working_set)@,
        begins_def(old(working_set)@, spans@, progress),
{
    if spans.len() == 0 || !is_word(working_set.get_span_contents(spans[0]), "def") {
        return DefProgress::Done(
            garbage_statement(spans),
            or_unknown_state(None, "Expected structure: def <name> [] {}", span(spans)),
        );
    }
    let decl_id = match working_set.find_decl("def".as_bytes()) {
        Some(id) => id,
        None => {
            return DefProgress::Done(
                garbage_statement(spans),
                or_internal_error(None, "missing def command", spans[0]),
            );
        },
    };
    let call = Call::new(spans[0], decl_id);
    if spans.len() == 1 {
        return DefProgress::Done(
            call_statement(call, span(spans), Type::Unknown),
            or_missing_positional(None, "definition name", spans[0].past()),
        );
    }
    DefProgress::Parse(
        DefState {
            phase: DefPhase::Name,
            spans: spans_to_vec(spans),
            name_span: spans[1],
            asked: spans[1],
            call,
            name: None,
            signature: None,
            error: None,
        },
    )
}

} // verus!

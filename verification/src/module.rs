//! `module name { ... }`: a named body of definitions and exports.

use vstd::prelude::*;
use crate::ast::{call_statement, garbage_statement, Block, Call, Expr, Expression, Statement, Type};
use crate::bytes::{is_word, word};
use crate::decl::name_bytes;
use crate::error::{first_error, or_error, ErrorView, ParseError};
use crate::model::WorkingSetView;
use crate::module_block::{
    parse_module_block, Lexed, ModuleBlockLex, ModuleBlockProgress, ModuleBlockState,
};
use crate::overlay::Overlay;
use crate::request::{
    or_expected, or_internal_error, or_unknown_state, reports, token, token_at, Parsed, Request,
    RequestView,
};
use crate::span::{covering, span, spans_to_vec, Span};
use crate::working_set::WorkingSet;

verus! {

/// What a module statement knows once its name is parsed.
#[derive(Debug, PartialEq, Eq)]
pub struct ModuleHead {
    /// The tokens of the statement, `module` first.
    pub spans: Vec<Span>,
    /// The name as it was parsed.
    pub name_expr: Expression,
    /// The name.
    pub name: String,
    /// Where the body stands, without its braces.
    pub body_span: Span,
    /// The first error so far.
    pub error: Option<ParseError>,
}

/// A `module` statement whose name is to be parsed by the caller.
#[derive(Debug, PartialEq, Eq)]
pub struct ModuleName {
    /// The tokens of the statement, `module` first.
    pub spans: Vec<Span>,
}

/// A `module` statement whose body is to be cut into pipelines by the caller.
#[derive(Debug, PartialEq, Eq)]
pub struct ModuleLex {
    pub head: ModuleHead,
    pub body: ModuleBlockLex,
}

/// A `module` statement one of whose statements waits for its caller.
#[derive(Debug, PartialEq, Eq)]
pub struct ModuleBody {
    pub head: ModuleHead,
    pub body: ModuleBlockState,
}

/// How far the parsing of a `module` statement has come.
#[derive(Debug, PartialEq, Eq)]
pub enum ModuleProgress {
    /// The caller is to parse the second token as a string.
    ParseName(ModuleName),
    /// The caller is to cut the text of the body into pipelines.
    Lex(ModuleLex),
    /// The caller is to parse what the state asks for and resume it.
    Parse(ModuleBody),
    /// The statement and the first error met.
    Done(Statement, Option<ParseError>),
}

impl ModuleProgress {
    /// How many scopes the parser has entered and not yet left.
    pub open spec fn held_scopes(self) -> int {
        match self {
            ModuleProgress::ParseName(_) => 0,
            ModuleProgress::Lex(_) => 1,
            ModuleProgress::Parse(state) => state.body.held_scopes(),
            ModuleProgress::Done(..) => 0,
        }
    }

    /// Whether this is the answer to a statement that is given up: a garbage
    /// statement over all of `spans`, and `error` unless `earlier` is there.
    pub open spec fn is_given_up(
        self,
        spans: Seq<Span>,
        earlier: Option<ParseError>,
        error: ErrorView,
    ) -> bool {
        &&& self matches ModuleProgress::Done(statement, reported)
        &&& statement.is_garbage(covering(spans))
        &&& reports(reported, earlier, error)
    }
}

/// Whether the text starts with `{`.
pub open spec fn opens_brace(bytes: Seq<u8>) -> bool {
    bytes.len() > 0 && bytes[0] == 0x7b
}

/// Whether the text ends with `}`.
pub open spec fn closes_brace(bytes: Seq<u8>) -> bool {
    bytes.len() > 0 && bytes[bytes.len() - 1] == 0x7d
}

/// Where the body of a module stands whose text, braces included, is `bytes`
/// at `block_span`: one byte in from the `{`, and one byte in from the `}` if
/// the text ends with one.
pub open spec fn inside_braces(bytes: Seq<u8>, block_span: Span) -> Span {
    Span {
        start: (block_span.start + 1) as usize,
        end: if closes_brace(bytes) {
            (block_span.end - 1) as usize
        } else {
            block_span.end
        },
    }
}

/// Whether `progress` is how `parse_module` answers the tokens `spans` in
/// `working_set`.
pub open spec fn begins_module(
    working_set: WorkingSetView,
    spans: Seq<Span>,
    progress: ModuleProgress,
) -> bool {
    if spans.len() >= 3 && working_set.span_contents(spans[0]) == word("module") {
        progress matches ModuleProgress::ParseName(state) && state.spans@ == spans
    } else {
        progress.is_given_up(
            spans,
            None,
            ErrorView::UnknownState("Expected structure: module <name> {}"@, covering(spans)),
        )
    }
}

/// Parses `module name { ... }`.
///
/// Fewer than three tokens, or a first token other than `module`, give a
/// garbage statement and the error of an unknown state. Otherwise the caller
/// is to parse the name. The working set is not changed yet.
pub fn parse_module(working_set: &mut WorkingSet, spans: &[Span]) -> (progress: ModuleProgress)
    ensures
        final(working_set)@ == old(working_set)@,
        begins_module(old(working_set)@, spans@, progress),
{
    if spans.len() >= 3 && is_word(working_set.get_span_contents(spans[0]), "module") {
        ModuleProgress::ParseName(ModuleName { spans: spans_to_vec(spans) })
    } else {
        ModuleProgress::Done(
            garbage_statement(spans),
            or_unknown_state(None, "Expected structure: module <name> {}", span(spans)),
        )
    }
}

impl ModuleName {
    /// What the caller is to parse: the second token, as a string.
    pub fn request(&self) -> (request: Request)
        ensures
            request@ == RequestView::String(token_at(self.spans@, 1)),
    {
        Request::String(token(self.spans.as_slice(), 1))
    }

    /// Whether `progress`, with the working set `after`, is how the statement
    /// goes on from the working set `before` with its name.
    ///
    /// A name that is no string gives the statement up with an internal
    /// error, and a third token that does not start with `{` gives it up with
    /// a block being expected there. A body that does not end with `}` is
    /// reported as unclosed at its end, and parsed all the same. The scope of
    /// the module is entered, and the caller is asked to cut the text between
    /// the braces into pipelines.
    pub open spec fn steps(
        self,
        before: WorkingSetView,
        parsed: Parsed,
        after: WorkingSetView,
        progress: ModuleProgress,
    ) -> bool {
        let block_span = token_at(self.spans@, 2);
        let bytes = before.span_contents(block_span);
        match parsed.expression.spec_as_string() {
            None => {
                &&& after == before
                &&& progress.is_given_up(
                    self.spans@,
                    parsed.error,
                    ErrorView::InternalError(
                        "module name is not a string"@,
                        token_at(self.spans@, 1),
                    ),
                )
            },
            Some(name) => if !opens_brace(bytes) {
                &&& after == before
                &&& progress.is_given_up(
                    self.spans@,
                    parsed.error,
                    ErrorView::Expected("block"@, block_span),
                )
            } else {
                &&& after == before.enter_scope()
                &&& progress matches ModuleProgress::Lex(state)
                &&& state.head.spans == self.spans
                &&& state.head.name_expr == parsed.expression
                &&& state.head.name@ == name
                &&& state.head.body_span == inside_braces(bytes, block_span)
                &&& state.body.span == inside_braces(bytes, block_span)
                &&& if closes_brace(bytes) {
                    state.head.error == parsed.error
                } else {
                    reports(
                        state.head.error,
                        parsed.error,
                        ErrorView::Unclosed("}"@, block_span.past()),
                    )
                }
            },
        }
    }

    /// Goes on with the name that the caller parsed.
    pub fn resume(self, working_set: &mut WorkingSet, parsed: Parsed) -> (progress: ModuleProgress)
        ensures
            self.steps(old(working_set)@, parsed, final(working_set)@, progress),
    {
        let mut error = parsed.error;
        let name = match parsed.expression.as_string() {
            Some(name) => name,
            None => {
                return ModuleProgress::Done(
                    garbage_statement(self.spans.as_slice()),
                    or_internal_error(
                        error,
                        "module name is not a string",
                        token(self.spans.as_slice(), 1),
                    ),
                );
            },
        };
        let block_span = token(self.spans.as_slice(), 2);
        let bytes = working_set.get_span_contents(block_span);
        if !(bytes.len() > 0 && bytes[0] == 0x7b) {
            return ModuleProgress::Done(
                garbage_statement(self.spans.as_slice()),
                or_expected(error, "block", block_span),
            );
        }
        let start = block_span.start + 1;
        let end = if bytes[bytes.len() - 1] == 0x7d {
            block_span.end - 1
        } else {
            error = match error {
                Some(earlier) => Some(earlier),
                None => Some(ParseError::Unclosed("}".to_owned(), block_span.past())),
            };
            block_span.end
        };
        let body_span = Span { start, end };
        let head = ModuleHead {
            spans: self.spans,
            name_expr: parsed.expression,
            name,
            body_span,
            error,
        };
        let begun = parse_module_block(working_set, body_span);
        follow_body(working_set, head, begun)
    }
}

/// Whether `call` is the call of a module statement: the command at the
/// first token, with the name and the block as its arguments.
pub open spec fn is_module_call(
    call: Call,
    head: ModuleHead,
    decl_id: usize,
    block_id: usize,
) -> bool {
    &&& call.head == token_at(head.spans@, 0)
    &&& call.decl_id == decl_id
    &&& call.positional@.len() == 2
    &&& call.positional@[0] == head.name_expr
    &&& call.positional@[1].expr == Expr::Block(block_id)
    &&& call.positional@[1].span == head.body_span
    &&& call.positional@[1].ty == Type::Block
    &&& call.positional@[1].custom_completion is None
    &&& call.named@.len() == 0
}

/// Whether `progress`, with the working set `after`, is how a module
/// statement ends in `working_set` once its body gave `block`, `overlay` and
/// `error`.
///
/// The block is added, and the overlay is added under the name of the
/// module. The statement is the call of the command `module` with the name
/// and the block; a working set that does not know that command gives a
/// garbage statement and an internal error.
pub open spec fn ends_module(
    working_set: WorkingSetView,
    head: ModuleHead,
    block: Block,
    overlay: Overlay,
    error: Option<ParseError>,
    after: WorkingSetView,
    progress: ModuleProgress,
) -> bool {
    &&& after == working_set.add_block(block).add_overlay(name_bytes(head.name@), overlay)
    &&& match after.find_decl(word("module")) {
        Some(decl_id) => {
            &&& progress matches ModuleProgress::Done(statement, reported)
            &&& statement.is_call(covering(head.spans@), Type::Unknown)
            &&& is_module_call(
                statement.call(),
                head,
                decl_id,
                working_set.blocks.len() as usize,
            )
            &&& reported == first_error(head.error, error)
        },
        None => progress.is_given_up(
            head.spans@,
            first_error(head.error, error),
            ErrorView::InternalError("missing module command"@, token_at(head.spans@, 0)),
        ),
    }
}

/// Whether `progress`, with the working set `after`, is how a module
/// statement goes on in `working_set` from what the parser of its body
/// answered.
pub open spec fn follows_body(
    working_set: WorkingSetView,
    head: ModuleHead,
    body: ModuleBlockProgress,
    after: WorkingSetView,
    progress: ModuleProgress,
) -> bool {
    match body {
        ModuleBlockProgress::Lex(lex) => {
            &&& after == working_set
            &&& progress == ModuleProgress::Lex(ModuleLex { head, body: lex })
        },
        ModuleBlockProgress::Parse(state) => {
            &&& after == working_set
            &&& progress == ModuleProgress::Parse(ModuleBody { head, body: state })
        },
        ModuleBlockProgress::Done(block, overlay, error) => ends_module(
            working_set,
            head,
            block,
            overlay,
            error,
            after,
            progress,
        ),
    }
}

fn follow_body(
    working_set: &mut WorkingSet,
    head: ModuleHead,
    body: ModuleBlockProgress,
) -> (progress: ModuleProgress)
    ensures
        follows_body(old(working_set)@, head, body, final(working_set)@, progress),
{
    match body {
        ModuleBlockProgress::Lex(lex) => ModuleProgress::Lex(ModuleLex { head, body: lex }),
        ModuleBlockProgress::Parse(state) => ModuleProgress::Parse(
            ModuleBody { head, body: state },
        ),
        ModuleBlockProgress::Done(block, overlay, failure) => {
            let error = or_error(head.error, failure);
            let block_id = working_set.add_block(block);
            working_set.add_overlay(head.name.as_str().as_bytes(), overlay);
            match working_set.find_decl("module".as_bytes()) {
                Some(decl_id) => {
                    let mut call = Call::new(token(head.spans.as_slice(), 0), decl_id);
                    call.positional.push(head.name_expr);
                    call.positional.push(
                        Expression {
                            expr: Expr::Block(block_id),
                            span: head.body_span,
                            ty: Type::Block,
                            custom_completion: None,
                        },
                    );
                    ModuleProgress::Done(
                        call_statement(call, span(head.spans.as_slice()), Type::Unknown),
                        error,
                    )
                },
                None => ModuleProgress::Done(
                    garbage_statement(head.spans.as_slice()),
                    or_internal_error(
                        error,
                        "missing module command",
                        token(head.spans.as_slice(), 0),
                    ),
                ),
            }
        },
    }
}

impl ModuleLex {
    /// Whether `progress`, with the working set `after`, is how the statement
    /// goes on from the working set `before` with the pipelines of its body:
    /// the body goes on, and the statement follows its answer.
    pub open spec fn steps(
        self,
        before: WorkingSetView,
        lexed: Lexed,
        after: WorkingSetView,
        progress: ModuleProgress,
    ) -> bool {
        exists|answer: ModuleBlockProgress, mid: WorkingSetView|
            {
                &&& #[trigger] self.body.steps(before, lexed, mid, answer)
                &&& follows_body(mid, self.head, answer, after, progress)
            }
    }

    /// Goes on with the pipelines that the caller cut the body into.
    pub fn resume(self, working_set: &mut WorkingSet, lexed: Lexed) -> (progress: ModuleProgress)
        ensures
            self.steps(old(working_set)@, lexed, final(working_set)@, progress),
    {
        let answer = self.body.resume(working_set, lexed);
        follow_body(working_set, self.head, answer)
    }
}

impl ModuleBody {
    /// What the caller is to parse: what the body asks for.
    pub fn request(&self) -> (request: Request)
        ensures
            request@ == self.body.requested(),
    {
        self.body.request()
    }

    /// Whether `progress`, with the working set `after`, is how the statement
    /// goes on from the working set `before` with what the caller parsed: the
    /// body goes on, and the statement follows its answer.
    pub open spec fn steps(
        self,
        before: WorkingSetView,
        parsed: Parsed,
        after: WorkingSetView,
        progress: ModuleProgress,
    ) -> bool {
        exists|answer: ModuleBlockProgress, mid: WorkingSetView|
            {
                &&& #[trigger] self.body.steps(before, parsed, mid, answer)
                &&& follows_body(mid, self.head, answer, after, progress)
            }
    }

    /// Goes on with what the caller parsed.
    pub fn resume(self, working_set: &mut WorkingSet, parsed: Parsed) -> (progress: ModuleProgress)
        ensures
            self.steps(old(working_set)@, parsed, final(working_set)@, progress),
    {
        let answer = self.body.resume(working_set, parsed);
        follow_body(working_set, self.head, answer)
    }
}

} // verus!

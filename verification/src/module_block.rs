//! The body of a module: definitions and exports, parsed in two passes.

use vstd::prelude::*;
use crate::ast::{garbage_statement, Block, Exportable, Signature, Statement};
use crate::bytes::{is_word, trim_quotes, without_quotes, word};
use crate::def::{
    begins_def, begun_predecl, parse_def, parse_def_predecl, DefProgress, DefState,
    PredeclProgress, PredeclState,
};
use crate::error::{first_error, or_error, ErrorView, ParseError};
use crate::export::{begins_export, parse_export, ExportProgress, ExportState};
use crate::model::WorkingSetView;
use crate::overlay::{Overlay, OverlayView};
use crate::request::{or_expected, reports, token, token_at, Parsed, Request, RequestView};
use crate::span::{covering, span, Span};
use crate::working_set::WorkingSet;

verus! {

/// The tokens of one command.
#[derive(Debug, Clone, PartialEq, Eq)]
pub struct LiteCommand {
    pub parts: Vec<Span>,
}

/// Commands whose values flow from one to the next.
#[derive(Debug, Clone, PartialEq, Eq)]
pub struct LitePipeline {
    pub commands: Vec<LiteCommand>,
}

/// Source text cut into pipelines of commands of tokens.
#[derive(Debug, Clone, PartialEq, Eq)]
pub struct LiteBlock {
    pub block: Vec<LitePipeline>,
}

/// What the caller made of the text of a module: the pipelines, and the
/// errors of cutting the text into tokens and of grouping the tokens.
#[derive(Debug, PartialEq, Eq)]
pub struct Lexed {
    pub block: LiteBlock,
    pub lex_error: Option<ParseError>,
    pub parse_error: Option<ParseError>,
}

/// The parser of one statement of a module that waits for its caller.
#[derive(Debug, PartialEq, Eq)]
pub enum Waiting {
    /// First pass: a name is being reserved.
    Predecl(PredeclState),
    /// Second pass: a definition.
    Def(DefState),
    /// Second pass: an export.
    Export(ExportState),
}

/// A module body whose text is to be cut into pipelines by the caller. The
/// scope of the module is open.
#[derive(Debug, PartialEq, Eq)]
pub struct ModuleBlockLex {
    /// Where the text of the body stands. The caller cuts these bytes into
    /// tokens, newlines included, counting positions from the start of the
    /// span, and groups the tokens into pipelines.
    pub span: Span,
}

/// A module body one of whose statements waits for its caller. The scope of
/// the module is open.
#[derive(Debug, PartialEq, Eq)]
pub struct ModuleBlockState {
    /// Where the text of the body stands.
    pub span: Span,
    /// The statements of the body.
    pub pipelines: Vec<LitePipeline>,
    /// Which statement is being parsed.
    pub index: usize,
    /// The parser of that statement.
    pub waiting: Waiting,
    /// The statements parsed so far, in the second pass.
    pub statements: Vec<Statement>,
    /// The exports so far.
    pub overlay: Overlay,
    /// The first error so far.
    pub error: Option<ParseError>,
}

/// How far the parsing of a module body has come.
#[derive(Debug, PartialEq, Eq)]
pub enum ModuleBlockProgress {
    /// The caller is to cut the text into pipelines.
    Lex(ModuleBlockLex),
    /// The caller is to parse what the state asks for and resume it.
    Parse(ModuleBlockState),
    /// The block of the module, what the module exports, and the first error.
    Done(Block, Overlay, Option<ParseError>),
}

/// What the two passes have gathered.
pub struct Gathered {
    /// The statements parsed so far.
    pub statements: Seq<Statement>,
    /// The exports so far.
    pub overlay: OverlayView,
    /// The first error so far.
    pub error: Option<ParseError>,
}

impl Gathered {
    /// With one more statement, and its error unless an earlier one is there.
    pub open spec fn record(self, statement: Statement, error: Option<ParseError>) -> Gathered {
        Gathered {
            statements: self.statements.push(statement),
            error: first_error(self.error, error),
            ..self
        }
    }

    /// With what an `export` statement with the tokens `tokens` exports, where
    /// it ended without an error: the export goes under the third token,
    /// without its quotes.
    pub open spec fn export(
        self,
        working_set: WorkingSetView,
        tokens: Seq<Span>,
        exportable: Option<Exportable>,
        error: Option<ParseError>,
    ) -> Gathered {
        if error is None && tokens.len() > 2 {
            let name = without_quotes(working_set.span_contents(tokens[2]));
            match exportable {
                Some(Exportable::Decl(id)) => Gathered {
                    overlay: self.overlay.with_decl(name, id),
                    ..self
                },
                Some(Exportable::EnvVar(id)) => Gathered {
                    overlay: self.overlay.with_env_var(name, id),
                    ..self
                },
                None => self,
            }
        } else {
            self
        }
    }
}

impl ModuleBlockProgress {
    /// How many scopes the parser has entered and not yet left.
    pub open spec fn held_scopes(self) -> int {
        match self {
            ModuleBlockProgress::Lex(_) => 1,
            ModuleBlockProgress::Parse(state) => state.held_scopes(),
            ModuleBlockProgress::Done(..) => 0,
        }
    }

    /// Whether the statement `index` of the body waits for its caller, with
    /// `gathered` in hand.
    pub open spec fn is_waiting(
        self,
        span: Span,
        pipelines: Vec<LitePipeline>,
        index: int,
        waiting: Waiting,
        gathered: Gathered,
    ) -> bool {
        &&& self matches ModuleBlockProgress::Parse(state)
        &&& state.span == span
        &&& state.pipelines == pipelines
        &&& state.index == index
        &&& state.waiting == waiting
        &&& state.gathered() == gathered
    }

    /// Whether the body is done with `gathered`: a block of the statements,
    /// with a nameless signature and no captures, the exports, and the error.
    pub open spec fn is_finished(self, gathered: Gathered) -> bool {
        &&& self matches ModuleBlockProgress::Done(block, overlay, error)
        &&& block.statements@ == gathered.statements
        &&& block.signature@.name == Seq::<char>::empty()
        &&& block.signature@.num_positionals() == 0
        &&& block.signature@.rest_positional is None
        &&& block.signature@.named.len() == 0
        &&& block.captures@.len() == 0
        &&& overlay@ == gathered.overlay
        &&& error == gathered.error
    }
}

/// The tokens of statement `i`, if it is a single command.
pub open spec fn tokens_of(pipelines: Vec<LitePipeline>, i: int) -> Option<Seq<Span>> {
    if 0 <= i < pipelines@.len() && pipelines@[i].commands@.len() == 1 {
        Some(pipelines@[i].commands@[0].parts@)
    } else {
        None
    }
}

/// The end of the second pass: the scope of the module is left, and the body
/// is done with what was gathered.
pub open spec fn finishes(
    working_set: WorkingSetView,
    gathered: Gathered,
    after: WorkingSetView,
    progress: ModuleBlockProgress,
) -> bool {
    &&& after == working_set.exit_scope()
    &&& progress.is_finished(gathered)
}

/// The second pass after statement `i`: from the next statement on, and at
/// its end if there is none.
pub open spec fn parses_after(
    working_set: WorkingSetView,
    span: Span,
    pipelines: Vec<LitePipeline>,
    i: int,
    gathered: Gathered,
    after: WorkingSetView,
    progress: ModuleBlockProgress,
) -> bool
    decreases pipelines@.len() - i, 0int, 0int,
{
    if 0 <= i < pipelines@.len() {
        parses_from(working_set, span, pipelines, i + 1, gathered, after, progress)
    } else {
        finishes(working_set, gathered, after, progress)
    }
}

/// The first pass from statement `i` on.
///
/// Every statement that is a single command goes through the first pass of
/// definitions, whose errors are dropped. The pass stops where a name is to be
/// parsed. After the last statement the second pass begins.
pub open spec fn reserves_from(
    working_set: WorkingSetView,
    span: Span,
    pipelines: Vec<LitePipeline>,
    i: int,
    gathered: Gathered,
    after: WorkingSetView,
    progress: ModuleBlockProgress,
) -> bool
    decreases pipelines@.len() - i, 2int, 0int,
{
    if i < 0 {
        false
    } else if i >= pipelines@.len() {
        parses_from(working_set, span, pipelines, 0, gathered, after, progress)
    } else {
        match tokens_of(pipelines, i) {
            Some(tokens) => match begun_predecl(working_set, tokens) {
                PredeclProgress::Parse(state) => {
                    &&& after == working_set
                    &&& progress.is_waiting(span, pipelines, i, Waiting::Predecl(state), gathered)
                },
                PredeclProgress::Done(_) => reserves_from(
                    working_set,
                    span,
                    pipelines,
                    i + 1,
                    gathered,
                    after,
                    progress,
                ),
            },
            None => reserves_from(working_set, span, pipelines, i + 1, gathered, after, progress),
        }
    }
}

/// The first pass after statement `i`: from the next statement on, and the
/// second pass if there is none.
pub open spec fn reserves_after(
    working_set: WorkingSetView,
    span: Span,
    pipelines: Vec<LitePipeline>,
    i: int,
    gathered: Gathered,
    after: WorkingSetView,
    progress: ModuleBlockProgress,
) -> bool {
    if 0 <= i < pipelines@.len() {
        reserves_from(working_set, span, pipelines, i + 1, gathered, after, progress)
    } else {
        parses_from(working_set, span, pipelines, 0, gathered, after, progress)
    }
}

/// The second pass from statement `i` on.
///
/// A statement of several commands is garbage over the whole body, and
/// reported as no pipeline being expected. A single command goes to the parser
/// of `def` or of `export` by its first token; any other is garbage and an
/// unexpected keyword. The pass stops where a parser waits for its caller.
/// After the last statement the scope of the module is left, and the body is
/// done.
pub open spec fn parses_from(
    working_set: WorkingSetView,
    span: Span,
    pipelines: Vec<LitePipeline>,
    i: int,
    gathered: Gathered,
    after: WorkingSetView,
    progress: ModuleBlockProgress,
) -> bool
    decreases pipelines@.len() - i, 1int, 0int,
{
    if i < 0 {
        false
    } else if i >= pipelines@.len() {
        finishes(working_set, gathered, after, progress)
    } else {
        match tokens_of(pipelines, i) {
            None => exists|statement: Statement, error: Option<ParseError>|
                {
                    &&& #[trigger] statement.is_garbage(span)
                    &&& #[trigger] reports(
                        error,
                        gathered.error,
                        ErrorView::Expected("not a pipeline"@, span),
                    )
                    &&& parses_from(
                        working_set,
                        span,
                        pipelines,
                        i + 1,
                        Gathered {
                            statements: gathered.statements.push(statement),
                            error,
                            ..gathered
                        },
                        after,
                        progress,
                    )
                },
            Some(tokens) => if working_set.span_contents(token_at(tokens, 0)) == word("def") {
                exists|answer: DefProgress|
                    {
                        &&& #[trigger] begins_def(working_set, tokens, answer)
                        &&& follows_definition(
                            working_set,
                            span,
                            pipelines,
                            i,
                            gathered,
                            answer,
                            after,
                            progress,
                        )
                    }
            } else if working_set.span_contents(token_at(tokens, 0)) == word("export") {
                exists|answer: ExportProgress|
                    {
                        &&& #[trigger] begins_export(working_set, tokens, answer)
                        &&& follows_export(
                            working_set,
                            span,
                            pipelines,
                            i,
                            gathered,
                            answer,
                            after,
                            progress,
                        )
                    }
            } else {
                exists|statement: Statement, error: Option<ParseError>|
                    {
                        &&& #[trigger] statement.is_garbage(covering(tokens))
                        &&& #[trigger] reports(
                            error,
                            None,
                            ErrorView::UnexpectedKeyword(
                                "expected def or export keyword"@,
                                token_at(tokens, 0),
                            ),
                        )
                        &&& parses_from(
                            working_set,
                            span,
                            pipelines,
                            i + 1,
                            gathered.record(statement, error),
                            after,
                            progress,
                        )
                    }
            },
        }
    }
}

/// The second pass after the parser of the definition at statement `i`
/// answered: it waits with that parser, or records the statement and goes on.
pub open spec fn follows_definition(
    working_set: WorkingSetView,
    span: Span,
    pipelines: Vec<LitePipeline>,
    i: int,
    gathered: Gathered,
    answer: DefProgress,
    after: WorkingSetView,
    progress: ModuleBlockProgress,
) -> bool
    decreases pipelines@.len() - i, 0int, 1int,
{
    match answer {
        DefProgress::Parse(state) => {
            &&& after == working_set
            &&& progress.is_waiting(span, pipelines, i, Waiting::Def(state), gathered)
        },
        DefProgress::Done(statement, error) => parses_after(
            working_set,
            span,
            pipelines,
            i,
            gathered.record(statement, error),
            after,
            progress,
        ),
    }
}

/// The second pass after the parser of the export at statement `i` answered:
/// it waits with that parser, or takes the export, records the statement and
/// goes on.
pub open spec fn follows_export(
    working_set: WorkingSetView,
    span: Span,
    pipelines: Vec<LitePipeline>,
    i: int,
    gathered: Gathered,
    answer: ExportProgress,
    after: WorkingSetView,
    progress: ModuleBlockProgress,
) -> bool
    decreases pipelines@.len() - i, 0int, 1int,
{
    match answer {
        ExportProgress::Parse(state) => {
            &&& after == working_set
            &&& progress.is_waiting(span, pipelines, i, Waiting::Export(state), gathered)
        },
        ExportProgress::Done(statement, exportable, error) => parses_after(
            working_set,
            span,
            pipelines,
            i,
            match tokens_of(pipelines, i) {
                Some(tokens) => gathered.export(working_set, tokens, exportable, error),
                None => gathered,
            }.record(statement, error),
            after,
            progress,
        ),
    }
}

fn finish(
    working_set: &mut WorkingSet,
    statements: Vec<Statement>,
    overlay: Overlay,
    error: Option<ParseError>,
) -> (progress: ModuleBlockProgress)
    ensures
        finishes(
            old(working_set)@,
            Gathered { statements: statements@, overlay: overlay@, error },
            final(working_set)@,
            progress,
        ),
{
    working_set.exit_scope();
    ModuleBlockProgress::Done(
        Block { signature: Signature::new(String::new()), statements, captures: Vec::new() },
        overlay,
        error,
    )
}

fn parse_after(
    working_set: &mut WorkingSet,
    span: Span,
    pipelines: Vec<LitePipeline>,
    index: usize,
    statements: Vec<Statement>,
    overlay: Overlay,
    error: Option<ParseError>,
) -> (progress: ModuleBlockProgress)
    ensures
        parses_after(
            old(working_set)@,
            span,
            pipelines,
            index as int,
            Gathered { statements: statements@, overlay: overlay@, error },
            final(working_set)@,
            progress,
        ),
    decreases pipelines@.len() - index, 0int, 0int,
{
    if index < pipelines.len() {
        parse_from(working_set, span, pipelines, index + 1, statements, overlay, error)
    } else {
        finish(working_set, statements, overlay, error)
    }
}

fn reserve_from(
    working_set: &mut WorkingSet,
    span: Span,
    pipelines: Vec<LitePipeline>,
    index: usize,
    statements: Vec<Statement>,
    overlay: Overlay,
    error: Option<ParseError>,
) -> (progress: ModuleBlockProgress)
    ensures
        reserves_from(
            old(working_set)@,
            span,
            pipelines,
            index as int,
            Gathered { statements: statements@, overlay: overlay@, error },
            final(working_set)@,
            progress,
        ),
    decreases pipelines@.len() - index, 2int, 0int,
{
    if index >= pipelines.len() {
        return parse_from(working_set, span, pipelines, 0, statements, overlay, error);
    }
    if pipelines[index].commands.len() == 1 {
        let answer = parse_def_predecl(
            working_set,
            pipelines[index].commands[0].parts.as_slice(),
        );
        match answer {
            PredeclProgress::Parse(state) => {
                return ModuleBlockProgress::Parse(
                    ModuleBlockState {
                        span,
                        pipelines,
                        index,
                        waiting: Waiting::Predecl(state),
                        statements,
                        overlay,
                        error,
                    },
                );
            },
            PredeclProgress::Done(_) => {},
        }
    }
    reserve_from(working_set, span, pipelines, index + 1, statements, overlay, error)
}

fn follow_definition(
    working_set: &mut WorkingSet,
    span: Span,
    pipelines: Vec<LitePipeline>,
    index: usize,
    statements: Vec<Statement>,
    overlay: Overlay,
    error: Option<ParseError>,
    answer: DefProgress,
) -> (progress: ModuleBlockProgress)
    ensures
        follows_definition(
            old(working_set)@,
            span,
            pipelines,
            index as int,
            Gathered { statements: statements@, overlay: overlay@, error },
            answer,
            final(working_set)@,
            progress,
        ),
    decreases pipelines@.len() - index, 0int, 1int,
{
    match answer {
        DefProgress::Parse(state) => ModuleBlockProgress::Parse(
            ModuleBlockState {
                span,
                pipelines,
                index,
                waiting: Waiting::Def(state),
                statements,
                overlay,
                error,
            },
        ),
        DefProgress::Done(statement, failure) => {
            let mut statements = statements;
            statements.push(statement);
            parse_after(
                working_set,
                span,
                pipelines,
                index,
                statements,
                overlay,
                or_error(error, failure),
            )
        },
    }
}

fn follow_export(
    working_set: &mut WorkingSet,
    span: Span,
    pipelines: Vec<LitePipeline>,
    index: usize,
    statements: Vec<Statement>,
    overlay: Overlay,
    error: Option<ParseError>,
    answer: ExportProgress,
) -> (progress: ModuleBlockProgress)
    ensures
        follows_export(
            old(working_set)@,
            span,
            pipelines,
            index as int,
            Gathered { statements: statements@, overlay: overlay@, error },
            answer,
            final(working_set)@,
            progress,
        ),
    decreases pipelines@.len() - index, 0int, 1int,
{
    match answer {
        ExportProgress::Parse(state) => ModuleBlockProgress::Parse(
            ModuleBlockState {
                span,
                pipelines,
                index,
                waiting: Waiting::Export(state),
                statements,
                overlay,
                error,
            },
        ),
        ExportProgress::Done(statement, exportable, failure) => {
            let mut overlay = overlay;
            if index < pipelines.len() && pipelines[index].commands.len() == 1 {
                let tokens = &pipelines[index].commands[0].parts;
                if failure.is_none() && tokens.len() > 2 {
                    let name = trim_quotes(working_set.get_span_contents(tokens[2]));
                    match exportable {
                        Some(Exportable::Decl(id)) => {
                            overlay.add_decl(name, id);
                        },
                        Some(Exportable::EnvVar(id)) => {
                            overlay.add_env_var(name, id);
                        },
                        None => {},
                    }
                }
            }
            let mut statements = statements;
            statements.push(statement);
            parse_after(
                working_set,
                span,
                pipelines,
                index,
                statements,
                overlay,
                or_error(error, failure),
            )
        },
    }
}

fn parse_from(
    working_set: &mut WorkingSet,
    span: Span,
    pipelines: Vec<LitePipeline>,
    index: usize,
    statements: Vec<Statement>,
    overlay: Overlay,
    error: Option<ParseError>,
) -> (progress: ModuleBlockProgress)
    ensures
        parses_from(
            old(working_set)@,
            span,
            pipelines,
            index as int,
            Gathered { statements: statements@, overlay: overlay@, error },
            final(working_set)@,
            progress,
        ),
    decreases pipelines@.len() - index, 1int, 0int,
{
    let ghost gathered = Gathered { statements: statements@, overlay: overlay@, error };
    if index >= pipelines.len() {
        return finish(working_set, statements, overlay, error);
    }
    if pipelines[index].commands.len() != 1 {
        let mut whole: Vec<Span> = Vec::new();
        whole.push(span);
        let statement = garbage_statement(whole.as_slice());
        let error = or_expected(error, "not a pipeline", span);
        let mut statements = statements;
        statements.push(statement);
        let progress = parse_from(
            working_set,
            span,
            pipelines,
            index + 1,
            statements,
            overlay,
            error,
        );
        proof {
            assert(statement.is_garbage(span));
            assert(reports(error, gathered.error, ErrorView::Expected("not a pipeline"@, span)));
        }
        return progress;
    }
    let first = token(pipelines[index].commands[0].parts.as_slice(), 0);
    if is_word(working_set.get_span_contents(first), "def") {
        let answer = parse_def(working_set, pipelines[index].commands[0].parts.as_slice());
        let ghost tokens = pipelines[index as int].commands@[0].parts@;
        proof {
            assert(begins_def(working_set@, tokens, answer));
        }
        follow_definition(working_set, span, pipelines, index, statements, overlay, error, answer)
    } else if is_word(working_set.get_span_contents(first), "export") {
        let answer = parse_export(working_set, pipelines[index].commands[0].parts.as_slice());
        let ghost tokens = pipelines[index as int].commands@[0].parts@;
        proof {
            assert(begins_export(working_set@, tokens, answer));
        }
        follow_export(working_set, span, pipelines, index, statements, overlay, error, answer)
    } else {
        let statement = garbage_statement(pipelines[index].commands[0].parts.as_slice());
        let failure = Some(
            ParseError::UnexpectedKeyword("expected def or export keyword".to_owned(), first),
        );
        let ghost tokens = pipelines[index as int].commands@[0].parts@;
        let mut statements = statements;
        statements.push(statement);
        let progress = parse_from(
            working_set,
            span,
            pipelines,
            index + 1,
            statements,
            overlay,
            or_error(error, failure),
        );
        proof {
            assert(statement.is_garbage(covering(tokens)));
            assert(reports(
                failure,
                None,
                ErrorView::UnexpectedKeyword(
                    "expected def or export keyword"@,
                    token_at(tokens, 0),
                ),
            ));
        }
        progress
    }
}

/// Parses the body of a module, whose text stands at `span`.
///
/// The scope of the module is entered, and the caller is asked to cut the
/// text into pipelines.
pub fn parse_module_block(working_set: &mut WorkingSet, span: Span) -> (progress:
    ModuleBlockProgress)
    ensures
        final(working_set)@ == old(working_set)@.enter_scope(),
        progress == ModuleBlockProgress::Lex(ModuleBlockLex { span }),
{
    working_set.enter_scope();
    ModuleBlockProgress::Lex(ModuleBlockLex { span })
}

impl ModuleBlockLex {
    /// Whether `progress`, with the working set `after`, is how the body goes
    /// on from the working set `before` with its pipelines: the first pass
    /// starts at the first statement, with no statements, no exports, and
    /// the first of the caller's two errors.
    pub open spec fn steps(
        self,
        before: WorkingSetView,
        lexed: Lexed,
        after: WorkingSetView,
        progress: ModuleBlockProgress,
    ) -> bool {
        reserves_from(
            before,
            self.span,
            lexed.block.block,
            0,
            Gathered {
                statements: Seq::empty(),
                overlay: OverlayView::empty(),
                error: first_error(lexed.lex_error, lexed.parse_error),
            },
            after,
            progress,
        )
    }

    /// Goes on with the pipelines that the caller cut the text into.
    pub fn resume(self, working_set: &mut WorkingSet, lexed: Lexed) -> (progress:
        ModuleBlockProgress)
        ensures
            self.steps(old(working_set)@, lexed, final(working_set)@, progress),
    {
        let error = or_error(lexed.lex_error, lexed.parse_error);
        reserve_from(
            working_set,
            self.span,
            lexed.block.block,
            0,
            Vec::new(),
            Overlay::new(),
            error,
        )
    }
}

impl ModuleBlockState {
    /// What the passes have gathered.
    pub open spec fn gathered(self) -> Gathered {
        Gathered { statements: self.statements@, overlay: self.overlay@, error: self.error }
    }

    /// How many scopes the parser has entered and not yet left: that of the
    /// module, and those of the statement that waits.
    pub open spec fn held_scopes(self) -> int {
        1 + match self.waiting {
            Waiting::Predecl(state) => state.held_scopes(),
            Waiting::Def(state) => state.held_scopes(),
            Waiting::Export(state) => state.held_scopes(),
        }
    }

    /// What the caller is to parse: what the statement that waits asks for.
    pub open spec fn requested(self) -> RequestView {
        match self.waiting {
            Waiting::Predecl(state) => state.requested(),
            Waiting::Def(state) => state.requested(),
            Waiting::Export(state) => state.requested(),
        }
    }

    /// What the caller is to parse.
    pub fn request(&self) -> (request: Request)
        ensures
            request@ == self.requested(),
    {
        match &self.waiting {
            Waiting::Predecl(state) => state.request(),
            Waiting::Def(state) => state.request(),
            Waiting::Export(state) => state.request(),
        }
    }

    /// Whether `progress`, with the working set `after`, is how the body goes
    /// on from the working set `before` with what the caller parsed: the
    /// statement that waits goes on, and the pass that it belongs to follows
    /// its answer.
    pub open spec fn steps(
        self,
        before: WorkingSetView,
        parsed: Parsed,
        after: WorkingSetView,
        progress: ModuleBlockProgress,
    ) -> bool {
        match self.waiting {
            Waiting::Predecl(state) => exists|answer: PredeclProgress, mid: WorkingSetView|
                {
                    &&& #[trigger] state.steps(before, parsed, mid, answer)
                    &&& match answer {
                        PredeclProgress::Parse(next) => {
                            &&& after == mid
                            &&& progress.is_waiting(
                                self.span,
                                self.pipelines,
                                self.index as int,
                                Waiting::Predecl(next),
                                self.gathered(),
                            )
                        },
                        PredeclProgress::Done(_) => reserves_after(
                            mid,
                            self.span,
                            self.pipelines,
                            self.index as int,
                            self.gathered(),
                            after,
                            progress,
                        ),
                    }
                },
            Waiting::Def(state) => exists|answer: DefProgress, mid: WorkingSetView|
                {
                    &&& #[trigger] state.steps(before, parsed, mid, answer)
                    &&& follows_definition(
                        mid,
                        self.span,
                        self.pipelines,
                        self.index as int,
                        self.gathered(),
                        answer,
                        after,
                        progress,
                    )
                },
            Waiting::Export(state) => exists|answer: ExportProgress, mid: WorkingSetView|
                {
                    &&& #[trigger] state.steps(before, parsed, mid, answer)
                    &&& follows_export(
                        mid,
                        self.span,
                        self.pipelines,
                        self.index as int,
                        self.gathered(),
                        answer,
                        after,
                        progress,
                    )
                },
        }
    }

    /// Goes on with what the caller parsed.
    pub fn resume(self, working_set: &mut WorkingSet, parsed: Parsed) -> (progress:
        ModuleBlockProgress)
        ensures
            self.steps(old(working_set)@, parsed, final(working_set)@, progress),
    {
        match self.waiting {
            Waiting::Predecl(state) => {
                let answer = state.resume(working_set, parsed);
                match answer {
                    PredeclProgress::Parse(next) => ModuleBlockProgress::Parse(
                        ModuleBlockState {
                            span: self.span,
                            pipelines: self.pipelines,
                            index: self.index,
                            waiting: Waiting::Predecl(next),
                            statements: self.statements,
                            overlay: self.overlay,
                            error: self.error,
                        },
                    ),
                    PredeclProgress::Done(_) => {
                        if self.index < self.pipelines.len() {
                            reserve_from(
                                working_set,
                                self.span,
                                self.pipelines,
                                self.index + 1,
                                self.statements,
                                self.overlay,
                                self.error,
                            )
                        } else {
                            parse_from(
                                working_set,
                                self.span,
                                self.pipelines,
                                0,
                                self.statements,
                                self.overlay,
                                self.error,
                            )
                        }
                    },
                }
            },
            Waiting::Def(state) => {
                let answer = state.resume(working_set, parsed);
                follow_definition(
                    working_set,
                    self.span,
                    self.pipelines,
                    self.index,
                    self.statements,
                    self.overlay,
                    self.error,
                    answer,
                )
            },
            Waiting::Export(state) => {
                let answer = state.resume(working_set, parsed);
                follow_export(
                    working_set,
                    self.span,
                    self.pipelines,
                    self.index,
                    self.statements,
                    self.overlay,
                    self.error,
                    answer,
                )
            },
        }
    }
}

} // verus!

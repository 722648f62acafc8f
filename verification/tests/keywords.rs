use nu_keywords::alias::{parse_alias, AliasProgress};
use nu_keywords::ast::{
    Block, Call, Exportable, Expr, Expression, ImportPattern, ImportPatternHead,
    ImportPatternMember, Signature, Statement, SyntaxShape, Type,
};
use nu_keywords::binding::{parse_let, LetProgress, CONFIG_VARIABLE_ID};
use nu_keywords::decl::{Decl, Encoding};
use nu_keywords::def::{
    parse_def, parse_def_predecl, DefProgress, PredeclProgress,
};
use nu_keywords::dispatch::{dispatch, keyword, Dispatched, Keyword};
use nu_keywords::error::ParseError;
use nu_keywords::export::{parse_export, ExportProgress};
use nu_keywords::import::{parse_hide, parse_use, ImportProgress, ModuleFile};
use nu_keywords::module::{parse_module, ModuleProgress};
use nu_keywords::module_block::{
    parse_module_block, Lexed, LiteBlock, LiteCommand, LitePipeline, ModuleBlockProgress,
};
use nu_keywords::overlay::Overlay;
use nu_keywords::register::{
    parse_register, CheckedCall, PathProbe, Probed, RegisterProgress,
};
use nu_keywords::request::{Parsed, ParsedCall, Request};
use nu_keywords::source::{parse_source, SourceProgress, Sourced};
use nu_keywords::span::Span;
use nu_keywords::working_set::WorkingSet;

// ---------------------------------------------------------------------------
// A stand-in for the rest of the parser: it cuts text into tokens and answers
// what the keyword parsers ask for, in the plainest way.
// ---------------------------------------------------------------------------

const BUILTINS: [&str; 13] = [
    "def", "alias", "export", "export def", "export env", "module", "use", "hide", "let",
    "source", "register", "echo", "config",
];

fn session() -> WorkingSet {
    let mut working_set = WorkingSet::new();
    for name in BUILTINS {
        working_set.add_decl(Decl::Builtin { signature: Signature::build(name) });
    }
    working_set
}

/// Cuts `text` into tokens at blanks and semicolons outside brackets and
/// double quotes. The positions count from `base`. A semicolon ends a
/// pipeline.
fn cut(text: &[u8], base: usize) -> Vec<Vec<Span>> {
    let mut pipelines: Vec<Vec<Span>> = vec![vec![]];
    let mut depth = 0usize;
    let mut quoted = false;
    let mut start: Option<usize> = None;
    for (i, byte) in text.iter().enumerate() {
        match byte {
            b'"' => {
                quoted = !quoted;
                start.get_or_insert(i);
            }
            _ if quoted => {}
            b'{' | b'[' | b'(' => {
                depth += 1;
                start.get_or_insert(i);
            }
            b'}' | b']' | b')' => {
                depth = depth.saturating_sub(1);
                start.get_or_insert(i);
            }
            b' ' | b'\n' | b';' if depth == 0 => {
                if let Some(from) = start.take() {
                    pipelines.last_mut().unwrap().push(Span { start: base + from, end: base + i });
                }
                if *byte != b' ' && !pipelines.last().unwrap().is_empty() {
                    pipelines.push(vec![]);
                }
            }
            _ => {
                start.get_or_insert(i);
            }
        }
    }
    if let Some(from) = start {
        pipelines.last_mut().unwrap().push(Span { start: base + from, end: base + text.len() });
    }
    pipelines.retain(|pipeline| !pipeline.is_empty());
    pipelines
}

/// Adds `text` as a file and gives the tokens of its first statement.
fn load(working_set: &mut WorkingSet, text: &str) -> Vec<Span> {
    let base = working_set.next_span_start();
    working_set.add_file("test".to_string(), text.as_bytes());
    cut(text.as_bytes(), base).into_iter().next().unwrap_or_default()
}

fn text_at(working_set: &WorkingSet, span: Span) -> String {
    String::from_utf8_lossy(working_set.get_span_contents(span)).to_string()
}

fn unquoted(text: &str) -> &str {
    let bytes = text.as_bytes();
    if bytes.len() > 1 && bytes[0] == b'"' && bytes[bytes.len() - 1] == b'"' {
        &text[1..text.len() - 1]
    } else {
        text
    }
}

fn string_at(working_set: &WorkingSet, span: Span) -> Expression {
    Expression {
        expr: Expr::String(unquoted(&text_at(working_set, span)).to_string()),
        span,
        ty: Type::String,
        custom_completion: None,
    }
}

fn empty_block() -> Block {
    Block { signature: Signature::build(""), statements: vec![], captures: vec![] }
}

/// Answers a request as the expression parser would, for the plain texts of
/// these tests: any string, the parameter list `[]`, any block.
fn answer(working_set: &mut WorkingSet, request: Request) -> Parsed {
    match request {
        Request::String(span) => Parsed { expression: string_at(working_set, span), error: None },
        Request::Signature(span) => {
            if text_at(working_set, span).starts_with('[') {
                Parsed {
                    expression: Expression {
                        expr: Expr::Signature(Box::new(Signature::build(""))),
                        span,
                        ty: Type::Signature,
                        custom_completion: None,
                    },
                    error: None,
                }
            } else {
                Parsed {
                    expression: Expression {
                        expr: Expr::Garbage,
                        span,
                        ty: Type::Unknown,
                        custom_completion: None,
                    },
                    error: Some(ParseError::Expected("parameters".to_string(), span)),
                }
            }
        }
        Request::Block { span, .. } => {
            if text_at(working_set, span).starts_with('{') {
                working_set.enter_scope();
                working_set.exit_scope();
                let id = working_set.add_block(empty_block());
                Parsed {
                    expression: Expression {
                        expr: Expr::Block(id),
                        span,
                        ty: Type::Block,
                        custom_completion: None,
                    },
                    error: None,
                }
            } else {
                Parsed {
                    expression: Expression {
                        expr: Expr::Garbage,
                        span,
                        ty: Type::Unknown,
                        custom_completion: None,
                    },
                    error: Some(ParseError::Expected("block".to_string(), span)),
                }
            }
        }
    }
}

fn run_predecl(working_set: &mut WorkingSet, spans: &[Span]) -> Option<ParseError> {
    let mut progress = parse_def_predecl(working_set, spans);
    loop {
        match progress {
            PredeclProgress::Parse(state) => {
                let parsed = answer(working_set, state.request());
                progress = state.resume(working_set, parsed);
            }
            PredeclProgress::Done(error) => return error,
        }
    }
}

fn run_def(working_set: &mut WorkingSet, spans: &[Span]) -> (Statement, Option<ParseError>) {
    let mut progress = parse_def(working_set, spans);
    loop {
        match progress {
            DefProgress::Parse(state) => {
                let parsed = answer(working_set, state.request());
                progress = state.resume(working_set, parsed);
            }
            DefProgress::Done(statement, error) => return (statement, error),
        }
    }
}

fn run_export(
    working_set: &mut WorkingSet,
    spans: &[Span],
) -> (Statement, Option<Exportable>, Option<ParseError>) {
    let mut progress = parse_export(working_set, spans);
    loop {
        match progress {
            ExportProgress::Parse(state) => {
                let parsed = answer(working_set, state.request());
                progress = state.resume(working_set, parsed);
            }
            ExportProgress::Done(statement, exportable, error) => {
                return (statement, exportable, error)
            }
        }
    }
}

fn lex(working_set: &WorkingSet, span: Span) -> Lexed {
    let pipelines = cut(working_set.get_span_contents(span), span.start);
    Lexed {
        block: LiteBlock {
            block: pipelines
                .into_iter()
                .map(|parts| LitePipeline { commands: vec![LiteCommand { parts }] })
                .collect(),
        },
        lex_error: None,
        parse_error: None,
    }
}

fn run_module_block(
    working_set: &mut WorkingSet,
    span: Span,
) -> (Block, Overlay, Option<ParseError>) {
    let mut progress = parse_module_block(working_set, span);
    loop {
        match progress {
            ModuleBlockProgress::Lex(state) => {
                let lexed = lex(working_set, state.span);
                progress = state.resume(working_set, lexed);
            }
            ModuleBlockProgress::Parse(state) => {
                let parsed = answer(working_set, state.request());
                progress = state.resume(working_set, parsed);
            }
            ModuleBlockProgress::Done(block, overlay, error) => return (block, overlay, error),
        }
    }
}

fn run_module(working_set: &mut WorkingSet, spans: &[Span]) -> (Statement, Option<ParseError>) {
    let mut progress = parse_module(working_set, spans);
    loop {
        match progress {
            ModuleProgress::ParseName(state) => {
                let parsed = answer(working_set, state.request());
                progress = state.resume(working_set, parsed);
            }
            ModuleProgress::Lex(state) => {
                let lexed = lex(working_set, state.body.span);
                progress = state.resume(working_set, lexed);
            }
            ModuleProgress::Parse(state) => {
                let parsed = answer(working_set, state.request());
                progress = state.resume(working_set, parsed);
            }
            ModuleProgress::Done(statement, error) => return (statement, error),
        }
    }
}

/// Reads an import pattern off the tokens: a head, then `*`, a name, or a
/// list in brackets.
fn pattern_of(working_set: &WorkingSet, tokens: &[Span]) -> ImportPattern {
    let head = ImportPatternHead {
        name: working_set.get_span_contents(tokens[0]).to_vec(),
        span: tokens[0],
    };
    let mut members = vec![];
    if let Some(member) = tokens.get(1) {
        let text = working_set.get_span_contents(*member);
        if text == b"*" {
            members.push(ImportPatternMember::Glob { span: *member });
        } else if text.starts_with(b"[") {
            let inner = &text[1..text.len() - 1];
            let names = cut(inner, member.start + 1)
                .into_iter()
                .flatten()
                .map(|span| (working_set.get_span_contents(span).to_vec(), span))
                .collect();
            members.push(ImportPatternMember::List { names });
        } else {
            members.push(ImportPatternMember::Name { name: text.to_vec(), span: *member });
        }
    }
    ImportPattern { head, members, hidden: vec![] }
}

/// Runs a `use` or a `hide`. `files` holds the module files that exist, by
/// name: the stem and the text of each.
fn run_import(
    working_set: &mut WorkingSet,
    mut progress: ImportProgress,
    files: &[(&str, &str, &str)],
) -> (Statement, Option<ParseError>) {
    loop {
        match progress {
            ImportProgress::ParseString(state) => {
                let parsed = answer(working_set, state.request());
                progress = state.resume(parsed);
            }
            ImportProgress::ParsePattern(state) => {
                let tokens = state.request();
                let pattern = pattern_of(working_set, &tokens);
                progress = state.resume(working_set, pattern, None);
            }
            ImportProgress::ReadFile(state) => {
                let found = match files.iter().find(|file| file.0 == state.request().as_str()) {
                    Some((_, stem, text)) => ModuleFile::Contents {
                        stem: stem.to_string(),
                        contents: text.as_bytes().to_vec(),
                    },
                    None => ModuleFile::NotFound,
                };
                progress = state.resume(working_set, found);
            }
            ImportProgress::Lex(state) => {
                let lexed = lex(working_set, state.body.span);
                progress = state.resume(working_set, lexed);
            }
            ImportProgress::Parse(state) => {
                let parsed = answer(working_set, state.request());
                progress = state.resume(working_set, parsed);
            }
            ImportProgress::Done(statement, error) => return (statement, error),
        }
    }
}

fn run_use(
    working_set: &mut WorkingSet,
    spans: &[Span],
    files: &[(&str, &str, &str)],
) -> (Statement, Option<ParseError>) {
    let progress = parse_use(working_set, spans);
    run_import(working_set, progress, files)
}

fn run_hide(working_set: &mut WorkingSet, spans: &[Span]) -> (Statement, Option<ParseError>) {
    let progress = parse_hide(working_set, spans);
    run_import(working_set, progress, &[])
}

fn call_of(statement: &Statement) -> &Call {
    match statement {
        Statement::Pipeline(pipeline) => {
            assert_eq!(pipeline.expressions.len(), 1, "a pipeline of one expression");
            match &pipeline.expressions[0].expr {
                Expr::Call(call) => call,
                other => panic!("no call: {:?}", other),
            }
        }
        other => panic!("no pipeline: {:?}", other),
    }
}

fn outer_span(statement: &Statement) -> Span {
    match statement {
        Statement::Pipeline(pipeline) => pipeline.expressions[0].span,
        other => panic!("no pipeline: {:?}", other),
    }
}

fn is_garbage(statement: &Statement, span: Span) -> bool {
    match statement {
        Statement::Pipeline(pipeline) => {
            pipeline.expressions.len() == 1
                && pipeline.expressions[0].expr == Expr::Garbage
                && pipeline.expressions[0].span == span
        }
        _ => false,
    }
}

fn whole(spans: &[Span]) -> Span {
    Span { start: spans[0].start, end: spans[spans.len() - 1].end }
}

// ---------------------------------------------------------------------------
// def
// ---------------------------------------------------------------------------

#[test]
fn def_in_a_fresh_scope_declares_the_command() {
    let mut working_set = session();
    working_set.enter_scope();
    let spans = load(&mut working_set, "def foo [] { 1 }");
    assert_eq!(spans.len(), 4);
    let depth = working_set.scope_depth();

    assert_eq!(run_predecl(&mut working_set, &spans), None);
    let (statement, error) = run_def(&mut working_set, &spans);

    assert_eq!(error, None);
    assert_eq!(working_set.scope_depth(), depth);
    let call = call_of(&statement);
    assert_eq!(Some(call.decl_id), working_set.find_decl(b"def"));
    assert_eq!(call.head, spans[0]);
    assert_eq!(call.positional.len(), 3);
    assert_eq!(call.positional[0].expr, Expr::String("foo".to_string()));
    assert!(matches!(call.positional[1].expr, Expr::Signature(_)));
    assert!(matches!(call.positional[2].expr, Expr::Block(_)));
    assert_eq!(outer_span(&statement), whole(&spans));

    let id = working_set.find_decl(b"foo").expect("foo is declared");
    match working_set.get_decl(id) {
        Some(Decl::Block { signature, block_id }) => {
            assert_eq!(signature.name, "foo");
            assert_eq!(signature.required_positional.len(), 0);
            assert_eq!(signature.optional_positional.len(), 0);
            assert_eq!(Expr::Block(*block_id), call.positional[2].expr);
        }
        other => panic!("no block command: {:?}", other),
    }
}

#[test]
fn def_twice_in_one_scope_is_a_duplicate_at_the_second_name() {
    let mut working_set = session();
    let base = working_set.next_span_start();
    let text = "def f [] { 1 }; def f [] { 2 }";
    working_set.add_file("test".to_string(), text.as_bytes());
    let statements = cut(text.as_bytes(), base);
    assert_eq!(statements.len(), 2);

    assert_eq!(run_predecl(&mut working_set, &statements[0]), None);
    let second = run_predecl(&mut working_set, &statements[1]);

    assert_eq!(second, Some(ParseError::DuplicateCommandDef(statements[1][1])));
    assert_eq!(text_at(&working_set, statements[1][1]), "f");
    assert_eq!(statements[1][1], Span { start: base + 20, end: base + 21 });
}

#[test]
fn predecl_reserves_the_name_of_an_exported_definition() {
    let mut working_set = session();
    let spans = load(&mut working_set, "export def a [] { 1 }");
    assert_eq!(run_predecl(&mut working_set, &spans), None);
    let id = working_set.find_decl(b"a").expect("a is reserved");
    assert!(matches!(working_set.get_decl(id), Some(Decl::Predecl { .. })));
}

#[test]
fn predecl_passes_over_what_defines_nothing() {
    let mut working_set = session();
    let decls = working_set.num_decls();
    for text in ["echo foo bar baz", "def foo []", "export env a { 1 }", "def"] {
        let spans = load(&mut working_set, text);
        assert_eq!(run_predecl(&mut working_set, &spans), None);
    }
    assert_eq!(run_predecl(&mut working_set, &[]), None);
    assert_eq!(working_set.num_decls(), decls);
}

#[test]
fn predecl_keeps_the_parameters_out_of_the_scope() {
    let mut working_set = session();
    let spans = load(&mut working_set, "def foo [] { 1 }");
    let depth = working_set.scope_depth();
    let mut progress = parse_def_predecl(&mut working_set, &spans);
    let mut deepest = depth;
    loop {
        match progress {
            PredeclProgress::Parse(state) => {
                let request = state.request();
                if let Request::Signature(_) = request {
                    working_set.add_variable(b"$x".to_vec(), Type::Int);
                    deepest = working_set.scope_depth();
                }
                let parsed = answer(&mut working_set, request);
                progress = state.resume(&mut working_set, parsed);
            }
            PredeclProgress::Done(_) => break,
        }
    }
    assert_eq!(deepest, depth + 1);
    assert_eq!(working_set.scope_depth(), depth);
    assert_eq!(working_set.find_variable(b"$x"), None);
}

#[test]
fn def_without_a_name_misses_it_right_after_def() {
    let mut working_set = session();
    let spans = load(&mut working_set, "def");
    let (statement, error) = run_def(&mut working_set, &spans);
    let after = Span { start: spans[0].end, end: spans[0].end };
    assert_eq!(error, Some(ParseError::MissingPositional("definition name".to_string(), after)));
    assert_eq!(call_of(&statement).positional.len(), 0);
}

#[test]
fn def_without_parameters_misses_them_right_after_the_name() {
    let mut working_set = session();
    let spans = load(&mut working_set, "def foo");
    let depth = working_set.scope_depth();
    let (statement, error) = run_def(&mut working_set, &spans);
    let after = Span { start: spans[1].end, end: spans[1].end };
    assert_eq!(error, Some(ParseError::MissingPositional("parameters".to_string(), after)));
    assert_eq!(call_of(&statement).positional.len(), 1);
    assert_eq!(working_set.scope_depth(), depth);
}

#[test]
fn def_without_a_body_misses_it_right_after_the_parameters() {
    let mut working_set = session();
    let spans = load(&mut working_set, "def foo []");
    let depth = working_set.scope_depth();
    let (statement, error) = run_def(&mut working_set, &spans);
    let after = Span { start: spans[2].end, end: spans[2].end };
    assert_eq!(error, Some(ParseError::MissingPositional("block".to_string(), after)));
    assert_eq!(call_of(&statement).positional.len(), 2);
    assert_eq!(working_set.scope_depth(), depth);
}

#[test]
fn def_of_something_else_is_an_unknown_state() {
    let mut working_set = session();
    let spans = load(&mut working_set, "echo foo");
    let (statement, error) = run_def(&mut working_set, &spans);
    assert_eq!(
        error,
        Some(ParseError::UnknownState(
            "Expected structure: def <name> [] {}".to_string(),
            whole(&spans)
        ))
    );
    assert!(is_garbage(&statement, whole(&spans)));
}

#[test]
fn def_of_no_tokens_is_an_unknown_state() {
    let mut working_set = session();
    let (statement, error) = run_def(&mut working_set, &[]);
    let nowhere = Span { start: 0, end: 0 };
    assert_eq!(
        error,
        Some(ParseError::UnknownState("Expected structure: def <name> [] {}".to_string(), nowhere))
    );
    assert!(is_garbage(&statement, nowhere));
}

#[test]
fn def_without_the_command_def_is_an_internal_error() {
    let mut working_set = WorkingSet::new();
    let spans = load(&mut working_set, "def foo [] { 1 }");
    let (statement, error) = run_def(&mut working_set, &spans);
    assert_eq!(error, Some(ParseError::InternalError("missing def command".to_string(), spans[0])));
    assert!(is_garbage(&statement, whole(&spans)));
}

#[test]
fn def_without_its_reservation_is_an_internal_error() {
    let mut working_set = session();
    let spans = load(&mut working_set, "def foo [] { 1 }");
    let depth = working_set.scope_depth();
    let (statement, error) = run_def(&mut working_set, &spans);
    assert_eq!(
        error,
        Some(ParseError::InternalError(
            "Predeclaration failed to add declaration".to_string(),
            spans[1]
        ))
    );
    assert_eq!(call_of(&statement).positional.len(), 3);
    assert_eq!(working_set.find_decl(b"foo"), None);
    assert_eq!(working_set.scope_depth(), depth);
}

#[test]
fn def_keeps_the_first_error() {
    let mut working_set = session();
    // The parameter list does not parse, and the body is missing: the first
    // of the two errors is reported.
    let spans = load(&mut working_set, "def foo bar");
    let (_, error) = run_def(&mut working_set, &spans);
    assert_eq!(error, Some(ParseError::Expected("parameters".to_string(), spans[2])));
}

#[test]
fn def_with_a_name_that_is_no_string_is_an_unknown_state() {
    let mut working_set = session();
    let spans = load(&mut working_set, "def foo [] { 1 }");
    let depth = working_set.scope_depth();
    let mut progress = parse_def(&mut working_set, &spans);
    let mut first = true;
    let (_, error) = loop {
        match progress {
            DefProgress::Parse(state) => {
                let mut parsed = answer(&mut working_set, state.request());
                if first {
                    parsed.expression.expr = Expr::Int(7);
                    first = false;
                }
                progress = state.resume(&mut working_set, parsed);
            }
            DefProgress::Done(statement, error) => break (statement, error),
        }
    };
    assert_eq!(
        error,
        Some(ParseError::UnknownState(
            "Could not get string from string expression".to_string(),
            spans[1]
        ))
    );
    assert_eq!(working_set.scope_depth(), depth);
}

#[test]
fn merging_after_def_changes_nothing() {
    let mut working_set = session();
    let spans = load(&mut working_set, "def foo [] { 1 }");
    run_predecl(&mut working_set, &spans);
    run_def(&mut working_set, &spans);
    let found = working_set.find_decl(b"foo");
    assert!(found.is_some());
    assert_eq!(working_set.merge_predecl(b"foo"), None);
    assert_eq!(working_set.find_decl(b"foo"), found);
    assert_eq!(working_set.merge_predecl(b"foo"), None);
    assert_eq!(working_set.find_decl(b"foo"), found);
}

#[test]
fn definitions_of_one_block_see_each_other() {
    let mut working_set = session();
    let base = working_set.next_span_start();
    let text = "def a [] { b }; def b [] { a }";
    working_set.add_file("test".to_string(), text.as_bytes());
    let statements = cut(text.as_bytes(), base);
    for statement in &statements {
        assert_eq!(run_predecl(&mut working_set, statement), None);
    }
    // Both names stand for something before either body is parsed.
    assert!(working_set.find_decl(b"a").is_some());
    assert!(working_set.find_decl(b"b").is_some());
    let reserved_a = working_set.find_decl(b"a");
    for statement in &statements {
        assert_eq!(run_def(&mut working_set, statement).1, None);
    }
    // The definition took the place of the reservation: the id is the same.
    assert_eq!(working_set.find_decl(b"a"), reserved_a);
    assert!(matches!(working_set.get_decl(reserved_a.unwrap()), Some(Decl::Block { .. })));
}

// ---------------------------------------------------------------------------
// alias
// ---------------------------------------------------------------------------

fn run_alias(
    working_set: &mut WorkingSet,
    spans: &[Span],
    verdict: Option<(Span, ParseError)>,
) -> (Statement, Option<ParseError>) {
    let mut progress = parse_alias(working_set, spans);
    loop {
        match progress {
            AliasProgress::CheckName(state) => {
                progress = state.resume(working_set, verdict.clone());
            }
            AliasProgress::ParseCall(state) => {
                let request = state.request();
                let mut call = Call::new(request.head, request.decl_id);
                for span in request.arguments {
                    call.positional.push(string_at(working_set, span));
                }
                let parsed =
                    ParsedCall { call, error: Some(ParseError::NonUtf8(Span { start: 0, end: 0 })) };
                progress = state.resume(working_set, parsed);
            }
            AliasProgress::Done(statement, error) => return (statement, error),
        }
    }
}

#[test]
fn alias_stands_for_its_replacement() {
    let mut working_set = session();
    let spans = load(&mut working_set, "alias foo = bar baz");
    let (statement, error) = run_alias(&mut working_set, &spans, None);
    assert_eq!(error, None);
    assert_eq!(Some(call_of(&statement).decl_id), working_set.find_decl(b"alias"));
    assert_eq!(outer_span(&statement), whole(&spans));
    assert_eq!(working_set.find_alias(b"foo"), Some(&vec![spans[3], spans[4]]));
    let replacement: Vec<String> = working_set
        .find_alias(b"foo")
        .unwrap()
        .iter()
        .map(|span| text_at(&working_set, *span))
        .collect();
    assert_eq!(replacement, vec!["bar", "baz"]);
}

#[test]
fn alias_name_loses_its_double_quotes() {
    let mut working_set = session();
    let spans = load(&mut working_set, "alias \"ll\" = ls -l");
    run_alias(&mut working_set, &spans, None);
    assert_eq!(working_set.find_alias(b"ll"), Some(&vec![spans[3], spans[4]]));
    assert_eq!(working_set.find_alias(b"\"ll\""), None);
}

#[test]
fn alias_of_three_tokens_records_nothing() {
    let mut working_set = session();
    let spans = load(&mut working_set, "alias foo =");
    let (statement, error) = run_alias(&mut working_set, &spans, None);
    assert_eq!(error, None);
    assert_eq!(call_of(&statement).positional.len(), 2);
    assert_eq!(working_set.find_alias(b"foo"), None);
}

#[test]
fn alias_with_a_bad_name_is_garbage_where_the_verdict_says() {
    let mut working_set = session();
    let spans = load(&mut working_set, "alias foo bar baz");
    let verdict = (spans[2], ParseError::Expected("equal sign".to_string(), spans[2]));
    let (statement, error) = run_alias(&mut working_set, &spans, Some(verdict));
    assert_eq!(error, Some(ParseError::Expected("equal sign".to_string(), spans[2])));
    assert!(is_garbage(&statement, spans[2]));
    assert_eq!(working_set.find_alias(b"foo"), None);
}

#[test]
fn alias_of_something_else_is_an_internal_error() {
    let mut working_set = session();
    let spans = load(&mut working_set, "echo foo = bar");
    let (statement, error) = run_alias(&mut working_set, &spans, None);
    assert_eq!(
        error,
        Some(ParseError::InternalError("Alias statement unparseable".to_string(), whole(&spans)))
    );
    assert!(is_garbage(&statement, whole(&spans)));
}

#[test]
fn alias_without_the_command_alias_is_an_internal_error() {
    let mut working_set = WorkingSet::new();
    let spans = load(&mut working_set, "alias foo = bar");
    let (statement, error) = run_alias(&mut working_set, &spans, None);
    assert_eq!(
        error,
        Some(ParseError::InternalError("Alias statement unparseable".to_string(), whole(&spans)))
    );
    assert!(is_garbage(&statement, whole(&spans)));
}

#[test]
fn hide_does_not_take_an_alias_away() {
    let mut working_set = session();
    let spans = load(&mut working_set, "alias foo = bar baz");
    run_alias(&mut working_set, &spans, None);
    let replacement = vec![spans[3], spans[4]];
    let hide = load(&mut working_set, "hide foo");
    let (statement, error) = run_hide(&mut working_set, &hide);
    assert_eq!(error, Some(ParseError::ModuleNotFound(hide[1])));
    assert!(is_garbage(&statement, whole(&hide)));
    assert_eq!(working_set.find_alias(b"foo"), Some(&replacement));
}

// ---------------------------------------------------------------------------
// export
// ---------------------------------------------------------------------------

#[test]
fn export_of_something_else_expects_def_or_env() {
    let mut working_set = session();
    let spans = load(&mut working_set, "export foo");
    let (statement, exportable, error) = run_export(&mut working_set, &spans);
    assert_eq!(error, Some(ParseError::Expected("def or env keyword".to_string(), spans[1])));
    assert_eq!(text_at(&working_set, spans[1]), "foo");
    assert_eq!(exportable, None);
    let call = call_of(&statement);
    assert_eq!(Some(call.decl_id), working_set.find_decl(b"export"));
    assert_eq!(call.positional.len(), 0);
    assert_eq!(outer_span(&statement), whole(&spans));
}

#[test]
fn export_alone_misses_its_keyword() {
    let mut working_set = session();
    let spans = load(&mut working_set, "export");
    let (_, exportable, error) = run_export(&mut working_set, &spans);
    let after = Span { start: spans[0].end, end: spans[0].end };
    assert_eq!(
        error,
        Some(ParseError::MissingPositional("def or env keyword".to_string(), after))
    );
    assert_eq!(exportable, None);
}

#[test]
fn export_of_no_tokens_is_an_unknown_state() {
    let mut working_set = session();
    let (statement, exportable, error) = run_export(&mut working_set, &[]);
    let nowhere = Span { start: 0, end: 0 };
    assert_eq!(
        error,
        Some(ParseError::UnknownState(
            "got empty input for parsing export statement".to_string(),
            nowhere
        ))
    );
    assert_eq!(exportable, None);
    assert!(is_garbage(&statement, nowhere));
}

#[test]
fn export_that_starts_otherwise_is_an_unknown_state() {
    let mut working_set = session();
    let spans = load(&mut working_set, "def a [] { 1 }");
    let (statement, _, error) = run_export(&mut working_set, &spans);
    assert_eq!(
        error,
        Some(ParseError::UnknownState("expected export statement".to_string(), whole(&spans)))
    );
    assert!(is_garbage(&statement, whole(&spans)));
}

#[test]
fn export_without_its_commands_is_an_internal_error() {
    let mut working_set = WorkingSet::new();
    let spans = load(&mut working_set, "export def a [] { 1 }");
    let (_, _, error) = run_export(&mut working_set, &spans);
    assert_eq!(
        error,
        Some(ParseError::InternalError("missing export command".to_string(), spans[0]))
    );

    let mut working_set = WorkingSet::new();
    working_set.add_decl(Decl::Builtin { signature: Signature::build("export") });
    working_set.add_decl(Decl::Builtin { signature: Signature::build("def") });
    let spans = load(&mut working_set, "export def a [] { 1 }");
    run_predecl(&mut working_set, &spans);
    let (statement, _, error) = run_export(&mut working_set, &spans);
    assert_eq!(
        error,
        Some(ParseError::InternalError("missing 'export def' command".to_string(), spans[0]))
    );
    assert!(is_garbage(&statement, whole(&spans)));

    let spans = load(&mut working_set, "export env a { 1 }");
    let (statement, _, error) = run_export(&mut working_set, &spans);
    assert_eq!(
        error,
        Some(ParseError::InternalError("missing 'export env' command".to_string(), spans[0]))
    );
    assert!(is_garbage(&statement, whole(&spans)));
}

#[test]
fn export_def_exports_the_command() {
    let mut working_set = session();
    let spans = load(&mut working_set, "export def a [] { 1 }");
    let depth = working_set.scope_depth();
    assert_eq!(run_predecl(&mut working_set, &spans), None);
    let (statement, exportable, error) = run_export(&mut working_set, &spans);
    assert_eq!(error, None);
    assert_eq!(working_set.scope_depth(), depth);
    let id = working_set.find_decl(b"a").expect("a is declared");
    assert_eq!(exportable, Some(Exportable::Decl(id)));
    let call = call_of(&statement);
    assert_eq!(Some(call.decl_id), working_set.find_decl(b"export def"));
    assert_eq!(call.head, Span { start: spans[0].start, end: spans[1].end });
    assert_eq!(call.positional.len(), 3);
    assert_eq!(outer_span(&statement), whole(&spans));
}

#[test]
fn export_def_with_an_error_exports_nothing() {
    let mut working_set = session();
    let spans = load(&mut working_set, "export def a []");
    let (statement, exportable, error) = run_export(&mut working_set, &spans);
    let after = Span { start: spans[3].end, end: spans[3].end };
    assert_eq!(error, Some(ParseError::MissingPositional("block".to_string(), after)));
    assert_eq!(exportable, None);
    assert_eq!(Some(call_of(&statement).decl_id), working_set.find_decl(b"export def"));
}

#[test]
fn export_def_of_a_definition_that_gave_no_call_is_an_internal_error() {
    let mut working_set = WorkingSet::new();
    for name in ["export", "export def"] {
        working_set.add_decl(Decl::Builtin { signature: Signature::build(name) });
    }
    // The command `def` is not known: the definition gives garbage.
    let spans = load(&mut working_set, "export def a [] { 1 }");
    let (statement, exportable, error) = run_export(&mut working_set, &spans);
    assert_eq!(
        error,
        Some(ParseError::InternalError("missing def command".to_string(), spans[1]))
    );
    assert_eq!(exportable, None);
    assert_eq!(Some(call_of(&statement).decl_id), working_set.find_decl(b"export"));
}

#[test]
fn export_env_exports_the_block() {
    let mut working_set = session();
    let spans = load(&mut working_set, "export env a { 1 }");
    let blocks = working_set.num_blocks();
    let (statement, exportable, error) = run_export(&mut working_set, &spans);
    assert_eq!(error, None);
    assert_eq!(exportable, Some(Exportable::EnvVar(blocks)));
    let call = call_of(&statement);
    assert_eq!(Some(call.decl_id), working_set.find_decl(b"export env"));
    assert_eq!(call.head, Span { start: spans[0].start, end: spans[1].end });
    assert_eq!(call.positional.len(), 2);
    assert_eq!(call.positional[0].expr, Expr::String("a".to_string()));
    assert_eq!(call.positional[1].expr, Expr::Block(blocks));
}

#[test]
fn export_env_misses_what_is_not_there() {
    let mut working_set = session();
    let spans = load(&mut working_set, "export env");
    let (_, exportable, error) = run_export(&mut working_set, &spans);
    let after = Span { start: spans[1].end, end: spans[1].end };
    assert_eq!(
        error,
        Some(ParseError::MissingPositional("environment variable name".to_string(), after))
    );
    assert_eq!(exportable, None);

    let spans = load(&mut working_set, "export env a");
    let (statement, exportable, error) = run_export(&mut working_set, &spans);
    let after = Span { start: spans[2].end, end: spans[2].end };
    assert_eq!(error, Some(ParseError::MissingPositional("block".to_string(), after)));
    assert_eq!(exportable, None);
    assert_eq!(call_of(&statement).positional.len(), 1);
}

#[test]
fn export_env_of_what_is_no_block_is_an_internal_error() {
    let mut working_set = session();
    let spans = load(&mut working_set, "export env a b");
    let (_, exportable, error) = run_export(&mut working_set, &spans);
    // The caller's error came first.
    assert_eq!(error, Some(ParseError::Expected("block".to_string(), spans[3])));
    assert_eq!(exportable, None);

    let spans = load(&mut working_set, "export env a { 1 }");
    let mut progress = parse_export(&mut working_set, &spans);
    let (_, exportable, error) = loop {
        match progress {
            ExportProgress::Parse(state) => {
                let mut parsed = answer(&mut working_set, state.request());
                if let Expr::Block(_) = parsed.expression.expr {
                    parsed.expression.expr = Expr::Nothing;
                }
                progress = state.resume(&mut working_set, parsed);
            }
            ExportProgress::Done(statement, exportable, error) => {
                break (statement, exportable, error)
            }
        }
    };
    assert_eq!(
        error,
        Some(ParseError::InternalError("block was not parsed as a block".to_string(), spans[3]))
    );
    assert_eq!(exportable, None);
}

// ---------------------------------------------------------------------------
// module
// ---------------------------------------------------------------------------

#[test]
fn module_exports_its_definitions() {
    let mut working_set = session();
    let spans =
        load(&mut working_set, "module m { export def a [] { 1 }; export def b [] { a } }");
    assert_eq!(spans.len(), 3);
    let depth = working_set.scope_depth();
    let blocks = working_set.num_blocks();

    let (statement, error) = run_module(&mut working_set, &spans);

    assert_eq!(error, None);
    assert_eq!(working_set.scope_depth(), depth);
    let call = call_of(&statement);
    assert_eq!(Some(call.decl_id), working_set.find_decl(b"module"));
    assert_eq!(call.positional.len(), 2);
    assert_eq!(call.positional[0].expr, Expr::String("m".to_string()));
    // Two bodies were added before the block of the module.
    assert_eq!(call.positional[1].expr, Expr::Block(blocks + 2));
    assert_eq!(call.positional[1].span, Span { start: spans[2].start + 1, end: spans[2].end - 1 });
    assert_eq!(call.positional[1].ty, Type::Block);
    match working_set.get_block(blocks + 2) {
        Some(block) => assert_eq!(block.statements.len(), 2),
        None => panic!("the block of the module was not added"),
    }

    let overlay_id = working_set.find_overlay(b"m").expect("m is an overlay");
    let overlay = working_set.get_overlay(overlay_id).expect("the overlay is there");
    let names: Vec<Vec<u8>> = overlay.decls().into_iter().map(|entry| entry.0).collect();
    assert_eq!(names, vec![b"a".to_vec(), b"b".to_vec()]);
    assert!(overlay.get_decl_id(b"a").is_some());
    assert!(overlay.get_decl_id(b"b").is_some());

    // The definitions live in the scope of the module, which is left.
    assert_eq!(working_set.find_decl(b"a"), None);

    let spans = load(&mut working_set, "use m *");
    let (_, error) = run_use(&mut working_set, &spans, &[]);
    assert_eq!(error, None);
    assert_eq!(working_set.find_decl(b"a"), overlay_of(&working_set, b"m").get_decl_id(b"a"));
    assert!(working_set.find_decl(b"a").is_some());
    assert!(working_set.find_decl(b"b").is_some());
}

fn overlay_of<'a>(working_set: &'a WorkingSet, name: &[u8]) -> &'a Overlay {
    working_set.get_overlay(working_set.find_overlay(name).unwrap()).unwrap()
}

#[test]
fn module_that_is_not_closed_is_parsed_all_the_same() {
    let mut working_set = session();
    let spans = load(&mut working_set, "module m { export def a [] { 1 }");
    // The cutting keeps an unclosed bracket in one token.
    assert_eq!(spans.len(), 3);
    assert_eq!(text_at(&working_set, spans[2]), "{ export def a [] { 1 }");
    // Make the text end without the brace that closes the module.
    let body = Span { start: spans[2].start, end: spans[2].end - 1 };
    let spans = vec![spans[0], spans[1], body];
    let depth = working_set.scope_depth();
    let (statement, error) = run_module(&mut working_set, &spans);
    let end = Span { start: body.end, end: body.end };
    assert_eq!(error, Some(ParseError::Unclosed("}".to_string(), end)));
    assert_eq!(call_of(&statement).positional.len(), 2);
    assert_eq!(call_of(&statement).positional[1].span, Span { start: body.start + 1, end: body.end });
    assert!(working_set.find_overlay(b"m").is_some());
    assert_eq!(working_set.scope_depth(), depth);
}

#[test]
fn module_without_a_block_expects_one() {
    let mut working_set = session();
    let spans = load(&mut working_set, "module m n");
    let (statement, error) = run_module(&mut working_set, &spans);
    assert_eq!(error, Some(ParseError::Expected("block".to_string(), spans[2])));
    assert!(is_garbage(&statement, whole(&spans)));
    assert_eq!(working_set.find_overlay(b"m"), None);
}

#[test]
fn module_of_too_few_tokens_is_an_unknown_state() {
    let mut working_set = session();
    for text in ["module m", "module", "echo m { }"] {
        let spans = load(&mut working_set, text);
        let (statement, error) = run_module(&mut working_set, &spans);
        assert_eq!(
            error,
            Some(ParseError::UnknownState(
                "Expected structure: module <name> {}".to_string(),
                whole(&spans)
            ))
        );
        assert!(is_garbage(&statement, whole(&spans)));
    }
}

#[test]
fn module_body_takes_definitions_and_exports_only() {
    let mut working_set = session();
    let base = working_set.next_span_start();
    let text = "def a [] { 1 }; echo hello; export env e { 2 }";
    working_set.add_file("test".to_string(), text.as_bytes());
    let span = Span { start: base, end: base + text.len() };
    let depth = working_set.scope_depth();
    let (block, overlay, error) = run_module_block(&mut working_set, span);
    let echo = Span { start: base + 16, end: base + 20 };
    assert_eq!(text_at(&working_set, echo), "echo");
    assert_eq!(
        error,
        Some(ParseError::UnexpectedKeyword("expected def or export keyword".to_string(), echo))
    );
    assert_eq!(block.statements.len(), 3);
    assert!(is_garbage(&block.statements[1], Span { start: base + 16, end: base + 26 }));
    // What follows the error is parsed all the same.
    assert!(overlay.has_env_var(b"e"));
    assert_eq!(overlay.decls(), vec![]);
    assert_eq!(working_set.scope_depth(), depth);
}

#[test]
fn module_body_takes_no_pipelines() {
    let mut working_set = session();
    let base = working_set.next_span_start();
    let text = "def a [] { 1 } | echo";
    working_set.add_file("test".to_string(), text.as_bytes());
    let span = Span { start: base, end: base + text.len() };
    let tokens = cut(text.as_bytes(), base).remove(0);
    let lexed = Lexed {
        block: LiteBlock {
            block: vec![LitePipeline {
                commands: vec![
                    LiteCommand { parts: tokens[..4].to_vec() },
                    LiteCommand { parts: tokens[5..].to_vec() },
                ],
            }],
        },
        lex_error: None,
        parse_error: None,
    };
    let depth = working_set.scope_depth();
    let progress = match parse_module_block(&mut working_set, span) {
        ModuleBlockProgress::Lex(state) => state.resume(&mut working_set, lexed),
        other => panic!("the body is not cut yet: {:?}", other),
    };
    match progress {
        ModuleBlockProgress::Done(block, _, error) => {
            assert_eq!(error, Some(ParseError::Expected("not a pipeline".to_string(), span)));
            assert_eq!(block.statements.len(), 1);
            assert!(is_garbage(&block.statements[0], span));
        }
        other => panic!("the body is not done: {:?}", other),
    }
    assert_eq!(working_set.scope_depth(), depth);
}

#[test]
fn module_body_keeps_the_first_error() {
    let mut working_set = session();
    let base = working_set.next_span_start();
    let text = "echo a; hello b";
    working_set.add_file("test".to_string(), text.as_bytes());
    let span = Span { start: base, end: base + text.len() };
    let lexed = Lexed {
        lex_error: Some(ParseError::Unclosed(")".to_string(), span)),
        parse_error: Some(ParseError::Expected("more".to_string(), span)),
        ..lex(&working_set, span)
    };
    let progress = match parse_module_block(&mut working_set, span) {
        ModuleBlockProgress::Lex(state) => state.resume(&mut working_set, lexed),
        other => panic!("the body is not cut yet: {:?}", other),
    };
    match progress {
        ModuleBlockProgress::Done(block, _, error) => {
            assert_eq!(error, Some(ParseError::Unclosed(")".to_string(), span)));
            assert_eq!(block.statements.len(), 2);
        }
        other => panic!("the body is not done: {:?}", other),
    }
}

#[test]
fn module_body_of_nothing_is_an_empty_block() {
    let mut working_set = session();
    let base = working_set.next_span_start();
    let depth = working_set.scope_depth();
    let (block, overlay, error) =
        run_module_block(&mut working_set, Span { start: base, end: base });
    assert_eq!(error, None);
    assert_eq!(block.statements.len(), 0);
    assert_eq!(block.signature.name, "");
    assert_eq!(overlay.decls(), vec![]);
    assert_eq!(working_set.scope_depth(), depth);
}

// ---------------------------------------------------------------------------
// use and hide
// ---------------------------------------------------------------------------

fn with_module(text: &str) -> WorkingSet {
    let mut working_set = session();
    let spans = load(&mut working_set, text);
    let (_, error) = run_module(&mut working_set, &spans);
    assert_eq!(error, None);
    working_set
}

const SPAM: &str = "module spam { export def a [] { 1 }; export def b [] { 2 }; export env e { 3 } }";

#[test]
fn use_of_a_module_brings_its_commands_in_under_its_name() {
    let mut working_set = with_module(SPAM);
    let spans = load(&mut working_set, "use spam");
    let (statement, error) = run_use(&mut working_set, &spans, &[]);
    assert_eq!(error, None);
    let a = overlay_of(&working_set, b"spam").get_decl_id(b"a");
    assert!(a.is_some());
    assert_eq!(working_set.find_decl(b"spam a"), a);
    assert_eq!(working_set.find_decl(b"spam b"), overlay_of(&working_set, b"spam").get_decl_id(b"b"));
    assert_eq!(working_set.find_decl(b"a"), None);

    let call = call_of(&statement);
    assert_eq!(Some(call.decl_id), working_set.find_decl(b"use"));
    assert_eq!(call.head, spans[0]);
    assert_eq!(call.positional.len(), 1);
    assert_eq!(call.positional[0].span, spans[1]);
    assert_eq!(call.positional[0].ty, Type::List(Box::new(Type::String)));
    match &call.positional[0].expr {
        Expr::ImportPattern(pattern) => {
            assert_eq!(pattern.head.name, b"spam");
            assert!(pattern.members.is_empty());
            assert!(pattern.hidden.is_empty());
        }
        other => panic!("no import pattern: {:?}", other),
    }
}

#[test]
fn use_of_one_name_brings_that_command_in() {
    let mut working_set = with_module(SPAM);
    let spans = load(&mut working_set, "use spam b");
    let (_, error) = run_use(&mut working_set, &spans, &[]);
    assert_eq!(error, None);
    assert_eq!(working_set.find_decl(b"b"), overlay_of(&working_set, b"spam").get_decl_id(b"b"));
    assert_eq!(working_set.find_decl(b"a"), None);
    assert_eq!(working_set.find_decl(b"spam b"), None);
}

#[test]
fn use_of_a_list_stops_at_the_first_name_that_is_not_exported() {
    let mut working_set = with_module(SPAM);
    let spans = load(&mut working_set, "use spam [a e x b]");
    let (statement, error) = run_use(&mut working_set, &spans, &[]);
    let x = Span { start: spans[2].start + 5, end: spans[2].start + 6 };
    assert_eq!(text_at(&working_set, x), "x");
    assert_eq!(error, Some(ParseError::ExportNotFound(x)));
    // `a` is a command, `e` an environment variable, `x` nothing; `b` is not
    // looked at.
    assert!(working_set.find_decl(b"a").is_some());
    assert_eq!(working_set.find_decl(b"e"), None);
    assert_eq!(working_set.find_decl(b"b"), None);
    assert_eq!(Some(call_of(&statement).decl_id), working_set.find_decl(b"use"));
}

#[test]
fn use_of_a_name_that_is_not_exported_is_an_export_not_found() {
    let mut working_set = with_module(SPAM);
    let spans = load(&mut working_set, "use spam zzz");
    let (_, error) = run_use(&mut working_set, &spans, &[]);
    assert_eq!(error, Some(ParseError::ExportNotFound(spans[2])));

    // An environment variable is no command, and no error either.
    let spans = load(&mut working_set, "use spam e");
    let (_, error) = run_use(&mut working_set, &spans, &[]);
    assert_eq!(error, None);
    assert_eq!(working_set.find_decl(b"e"), None);
}

#[test]
fn use_of_a_missing_file_is_garbage_and_a_file_not_found() {
    let mut working_set = session();
    let spans = load(&mut working_set, "use ./missing.nu");
    let decls = working_set.num_decls();
    let (statement, error) = run_use(&mut working_set, &spans, &[]);
    assert_eq!(error, Some(ParseError::FileNotFound("./missing.nu".to_string(), spans[1])));
    assert!(is_garbage(&statement, whole(&spans)));
    assert_eq!(working_set.num_decls(), decls);
}

#[test]
fn use_of_a_file_reads_the_module_from_it() {
    let mut working_set = session();
    let spans = load(&mut working_set, "use lib/greet.nu");
    let files_before = working_set.num_files();
    let start = working_set.next_span_start();
    let depth = working_set.scope_depth();
    let text = "export def hello [] { 1 }";
    let (statement, error) =
        run_use(&mut working_set, &spans, &[("lib/greet.nu", "greet", text)]);
    assert_eq!(error, None);
    assert_eq!(working_set.scope_depth(), depth);
    assert_eq!(working_set.num_files(), files_before + 1);
    assert_eq!(working_set.next_span_start(), start + text.len());
    assert_eq!(
        working_set.get_span_contents(Span { start, end: start + text.len() }),
        text.as_bytes()
    );
    assert!(working_set.find_overlay(b"greet").is_some());
    assert!(working_set.find_decl(b"greet hello").is_some());
    match &call_of(&statement).positional[0].expr {
        Expr::ImportPattern(pattern) => {
            assert_eq!(pattern.head.name, b"greet");
            assert_eq!(pattern.head.span, spans[1]);
        }
        other => panic!("no import pattern: {:?}", other),
    }
}

#[test]
fn use_of_a_file_that_cannot_be_read_finds_no_module() {
    let mut working_set = session();
    let spans = load(&mut working_set, "use dir/");
    let progress = parse_use(&mut working_set, &spans);
    let mut progress = progress;
    let (statement, error) = loop {
        match progress {
            ImportProgress::ReadFile(state) => {
                assert_eq!(state.request(), "dir/");
                progress = state.resume(&mut working_set, ModuleFile::Unreadable);
            }
            ImportProgress::Done(statement, error) => break (statement, error),
            other => {
                progress = match other {
                    ImportProgress::ParseString(state) => {
                        let parsed = answer(&mut working_set, state.request());
                        state.resume(parsed)
                    }
                    ImportProgress::ParsePattern(state) => {
                        let pattern = pattern_of(&working_set, &state.request());
                        state.resume(&mut working_set, pattern, None)
                    }
                    other => panic!("not expected: {:?}", other),
                }
            }
        }
    };
    assert_eq!(error, Some(ParseError::ModuleNotFound(spans[1])));
    assert!(is_garbage(&statement, whole(&spans)));
}

#[test]
fn use_of_a_head_that_is_no_text_is_not_utf8() {
    let mut working_set = session();
    let base = working_set.next_span_start();
    working_set.add_file("test".to_string(), b"use \xff\xfe");
    let spans = vec![Span { start: base, end: base + 3 }, Span { start: base + 4, end: base + 6 }];
    let mut progress = parse_use(&mut working_set, &spans);
    let (statement, error) = loop {
        match progress {
            ImportProgress::ParseString(state) => {
                let parsed = answer(&mut working_set, state.request());
                progress = state.resume(parsed);
            }
            ImportProgress::ParsePattern(state) => {
                let pattern = pattern_of(&working_set, &state.request());
                progress = state.resume(&mut working_set, pattern, None);
            }
            ImportProgress::Done(statement, error) => break (statement, error),
            other => panic!("not expected: {:?}", other),
        }
    };
    assert_eq!(error, Some(ParseError::NonUtf8(spans[1])));
    assert!(is_garbage(&statement, whole(&spans)));
}

#[test]
fn use_of_text_beyond_ascii_asks_for_the_file_of_that_name() {
    let mut working_set = session();
    let spans = load(&mut working_set, "use grüße.nu");
    let mut progress = parse_use(&mut working_set, &spans);
    loop {
        match progress {
            ImportProgress::ParseString(state) => {
                let parsed = answer(&mut working_set, state.request());
                progress = state.resume(parsed);
            }
            ImportProgress::ParsePattern(state) => {
                let pattern = pattern_of(&working_set, &state.request());
                progress = state.resume(&mut working_set, pattern, None);
            }
            ImportProgress::ReadFile(state) => {
                assert_eq!(state.request(), "grüße.nu");
                break;
            }
            other => panic!("not expected: {:?}", other),
        }
    }
}

#[test]
fn use_of_too_few_tokens_is_an_unknown_state() {
    let mut working_set = session();
    for text in ["use", "echo spam"] {
        let spans = load(&mut working_set, text);
        let (statement, error) = run_use(&mut working_set, &spans, &[]);
        assert_eq!(
            error,
            Some(ParseError::UnknownState(
                "Expected structure: use <name>".to_string(),
                whole(&spans)
            ))
        );
        assert!(is_garbage(&statement, whole(&spans)));
    }
}

#[test]
fn use_then_hide_leaves_every_name_as_it_was() {
    let mut working_set = with_module("module m { export def a [] { 1 }; export def b [] { 2 } }");
    let names: [&[u8]; 6] = [b"a", b"b", b"m a", b"m b", b"def", b"echo"];
    let before: Vec<Option<usize>> = names.iter().map(|name| working_set.find_decl(name)).collect();
    let decls = working_set.num_decls();

    let spans = load(&mut working_set, "use m");
    assert_eq!(run_use(&mut working_set, &spans, &[]).1, None);
    assert!(working_set.find_decl(b"m a").is_some());
    assert!(working_set.find_decl(b"m b").is_some());

    let spans = load(&mut working_set, "hide m");
    let (statement, error) = run_hide(&mut working_set, &spans);
    assert_eq!(error, None);

    let after: Vec<Option<usize>> = names.iter().map(|name| working_set.find_decl(name)).collect();
    assert_eq!(after, before);
    // Nothing was removed: the declarations are still there.
    assert_eq!(working_set.num_decls(), decls);
    match &call_of(&statement).positional[0].expr {
        Expr::ImportPattern(pattern) => {
            assert_eq!(pattern.hidden, vec![b"m a".to_vec(), b"m b".to_vec()]);
        }
        other => panic!("no import pattern: {:?}", other),
    }
    assert_eq!(Some(call_of(&statement).decl_id), working_set.find_decl(b"hide"));
}

#[test]
fn use_after_hide_makes_the_name_stand_for_its_command_again() {
    let mut working_set = with_module(SPAM);
    let used = load(&mut working_set, "use spam");
    run_use(&mut working_set, &used, &[]);
    let a = working_set.find_decl(b"spam a");
    let hidden = load(&mut working_set, "hide spam a");
    assert_eq!(run_hide(&mut working_set, &hidden).1, None);
    assert_eq!(working_set.find_decl(b"spam a"), None);
    assert!(working_set.find_decl(b"spam b").is_some());
    run_use(&mut working_set, &used, &[]);
    assert_eq!(working_set.find_decl(b"spam a"), a);
}

#[test]
fn hide_of_a_command_hides_that_name() {
    let mut working_set = session();
    let spans = load(&mut working_set, "def foo [] { 1 }");
    run_predecl(&mut working_set, &spans);
    run_def(&mut working_set, &spans);
    assert!(working_set.find_decl(b"foo").is_some());
    let decls = working_set.num_decls();

    let spans = load(&mut working_set, "hide foo");
    let (statement, error) = run_hide(&mut working_set, &spans);
    assert_eq!(error, None);
    assert_eq!(working_set.find_decl(b"foo"), None);
    assert_eq!(working_set.num_decls(), decls);
    match &call_of(&statement).positional[0].expr {
        Expr::ImportPattern(pattern) => assert_eq!(pattern.hidden, vec![b"foo".to_vec()]),
        other => panic!("no import pattern: {:?}", other),
    }
}

#[test]
fn hide_in_a_scope_ends_with_the_scope() {
    let mut working_set = session();
    let spans = load(&mut working_set, "def foo [] { 1 }");
    run_predecl(&mut working_set, &spans);
    run_def(&mut working_set, &spans);
    let foo = working_set.find_decl(b"foo");
    working_set.enter_scope();
    let spans = load(&mut working_set, "hide foo");
    run_hide(&mut working_set, &spans);
    assert_eq!(working_set.find_decl(b"foo"), None);
    working_set.exit_scope();
    assert_eq!(working_set.find_decl(b"foo"), foo);
}

#[test]
fn hide_with_a_star_hides_the_bare_names() {
    let mut working_set = with_module(SPAM);
    let spans = load(&mut working_set, "use spam *");
    run_use(&mut working_set, &spans, &[]);
    assert!(working_set.find_decl(b"a").is_some());
    let spans = load(&mut working_set, "hide spam *");
    let (_, error) = run_hide(&mut working_set, &spans);
    assert_eq!(error, None);
    assert_eq!(working_set.find_decl(b"a"), None);
    assert_eq!(working_set.find_decl(b"b"), None);
}

#[test]
fn hide_of_a_name_that_is_not_exported_is_an_export_not_found() {
    let mut working_set = with_module(SPAM);
    let spans = load(&mut working_set, "hide spam zzz");
    let (_, error) = run_hide(&mut working_set, &spans);
    assert_eq!(error, Some(ParseError::ExportNotFound(spans[2])));
    let spans = load(&mut working_set, "hide spam [a zzz b]");
    let (statement, error) = run_hide(&mut working_set, &spans);
    let zzz = Span { start: spans[2].start + 3, end: spans[2].start + 6 };
    assert_eq!(error, Some(ParseError::ExportNotFound(zzz)));
    match &call_of(&statement).positional[0].expr {
        Expr::ImportPattern(pattern) => assert_eq!(pattern.hidden, vec![b"spam a".to_vec()]),
        other => panic!("no import pattern: {:?}", other),
    }
}

#[test]
fn hide_of_what_is_nothing_finds_no_module() {
    let mut working_set = session();
    for text in ["hide nothing", "hide nothing a", "hide def a"] {
        let spans = load(&mut working_set, text);
        let (statement, error) = run_hide(&mut working_set, &spans);
        assert_eq!(error, Some(ParseError::ModuleNotFound(spans[1])));
        assert!(is_garbage(&statement, whole(&spans)));
    }
}

#[test]
fn hide_of_too_few_tokens_is_an_unknown_state() {
    let mut working_set = session();
    let spans = load(&mut working_set, "hide");
    let (statement, error) = run_hide(&mut working_set, &spans);
    assert_eq!(
        error,
        Some(ParseError::UnknownState("Expected structure: hide <name>".to_string(), whole(&spans)))
    );
    assert!(is_garbage(&statement, whole(&spans)));
}

#[test]
fn use_keeps_the_first_error_of_its_strings() {
    let mut working_set = with_module(SPAM);
    let spans = load(&mut working_set, "use spam zzz");
    let mut progress = parse_use(&mut working_set, &spans);
    let mut asked = vec![];
    let (_, error) = loop {
        match progress {
            ImportProgress::ParseString(state) => {
                let request = state.request();
                let mut parsed = answer(&mut working_set, state.request());
                if let Request::String(span) = request {
                    asked.push(span);
                    parsed.error = Some(ParseError::Expected("string".to_string(), span));
                }
                progress = state.resume(parsed);
            }
            ImportProgress::ParsePattern(state) => {
                let pattern = pattern_of(&working_set, &state.request());
                let failure = Some(ParseError::Expected("pattern".to_string(), spans[1]));
                progress = state.resume(&mut working_set, pattern, failure);
            }
            ImportProgress::Done(statement, error) => break (statement, error),
            other => panic!("not expected: {:?}", other),
        }
    };
    assert_eq!(asked, vec![spans[1], spans[2]]);
    assert_eq!(error, Some(ParseError::Expected("string".to_string(), spans[1])));
}

// ---------------------------------------------------------------------------
// let
// ---------------------------------------------------------------------------

/// Runs a `let` with a stand-in that knows integers, sums of them, and
/// variables with a type. It notes the order in which it was asked.
fn run_let(
    working_set: &mut WorkingSet,
    spans: &[Span],
    verdict: Option<(Span, ParseError)>,
    order: &mut Vec<&'static str>,
) -> (Statement, Option<ParseError>) {
    let mut progress = parse_let(working_set, spans);
    loop {
        match progress {
            LetProgress::CheckName(state) => {
                progress = state.resume(working_set, verdict.clone());
            }
            LetProgress::ParseValue(state) => {
                order.push("value");
                let from = state.spans[state.equals];
                let to = state.spans[state.spans.len() - 1];
                let value = Span { start: state.spans[state.equals + 1].start, end: to.end };
                let text = text_at(working_set, value);
                let (expr, ty, error) = if text.contains("$x") {
                    match working_set.find_variable(b"$x") {
                        Some(id) => (Expr::Var(id), Type::Unknown, None),
                        None => (
                            Expr::Garbage,
                            Type::Unknown,
                            Some(ParseError::Expected("variable".to_string(), value)),
                        ),
                    }
                } else if text.split(" + ").all(|part| part.parse::<i64>().is_ok()) {
                    let sum = text.split(" + ").map(|part| part.parse::<i64>().unwrap()).sum();
                    (Expr::Int(sum), Type::Int, None)
                } else {
                    (Expr::String(text), Type::String, None)
                };
                let inner = Expression { expr, span: value, ty: ty.clone(), custom_completion: None };
                let expression = Expression {
                    expr: Expr::Keyword(b"=".to_vec(), from, Box::new(inner)),
                    span: Span { start: from.start, end: to.end },
                    ty,
                    custom_completion: None,
                };
                progress = state.resume(Parsed { expression, error });
            }
            LetProgress::ParseVariable(state) => {
                order.push("variable");
                let tokens = state.request();
                let name = text_at(working_set, tokens[0]);
                let name = name.trim_end_matches(':');
                let ty = match tokens.get(1).map(|span| text_at(working_set, *span)) {
                    Some(ty) if ty == "int" => Type::Int,
                    Some(ty) if ty == "string" => Type::String,
                    _ => Type::Unknown,
                };
                let id = if name == "config" {
                    CONFIG_VARIABLE_ID
                } else {
                    working_set.add_variable(format!("${}", name).into_bytes(), ty.clone())
                };
                let expression = Expression {
                    expr: Expr::VarDecl(id),
                    span: Span { start: tokens[0].start, end: tokens[tokens.len() - 1].end },
                    ty,
                    custom_completion: None,
                };
                progress = state.resume(working_set, Parsed { expression, error: None });
            }
            LetProgress::ParseCall(state) => {
                order.push("call");
                let request = state.request();
                let call = Call::new(request.head, request.decl_id);
                let error = Some(ParseError::MissingPositional(
                    "var_name".to_string(),
                    Span { start: request.head.end, end: request.head.end },
                ));
                progress = state.resume(ParsedCall { call, error });
            }
            LetProgress::Done(statement, error) => return (statement, error),
        }
    }
}

#[test]
fn let_binds_a_variable_to_the_type_of_its_value() {
    let mut working_set = session();
    let spans = load(&mut working_set, "let x: int = 1 + 2");
    let mut order = vec![];
    let (statement, error) = run_let(&mut working_set, &spans, None, &mut order);
    assert_eq!(error, None);
    assert_eq!(order, vec!["value", "variable"]);
    let call = call_of(&statement);
    assert_eq!(Some(call.decl_id), working_set.find_decl(b"let"));
    assert_eq!(call.head, spans[0]);
    assert_eq!(call.positional.len(), 2);
    let x = working_set.find_variable(b"$x").expect("x is a variable");
    assert_eq!(call.positional[0].expr, Expr::VarDecl(x));
    assert_eq!(call.positional[0].ty, Type::Int);
    match &call.positional[1].expr {
        Expr::Keyword(word, at, value) => {
            assert_eq!(word, b"=");
            assert_eq!(*at, spans[3]);
            assert_eq!(value.expr, Expr::Int(3));
        }
        other => panic!("no keyword: {:?}", other),
    }
    assert_eq!(working_set.get_variable_type(x), Some(&Type::Int));
    assert_eq!(outer_span(&statement), whole(&spans));
}

#[test]
fn let_gives_the_variable_the_type_of_the_value() {
    let mut working_set = session();
    let spans = load(&mut working_set, "let name = world");
    let mut order = vec![];
    let (_, error) = run_let(&mut working_set, &spans, None, &mut order);
    assert_eq!(error, None);
    let name = working_set.find_variable(b"$name").unwrap();
    assert_eq!(working_set.get_variable_type(name), Some(&Type::String));
}

#[test]
fn let_parses_the_value_before_the_variable_is_in_scope() {
    let mut working_set = session();
    let spans = load(&mut working_set, "let x = (def y [] { $x })");
    let mut order = vec![];
    let (statement, error) = run_let(&mut working_set, &spans, None, &mut order);
    assert_eq!(order, vec!["value", "variable"]);
    // While the value was parsed, `$x` stood for nothing.
    assert!(matches!(error, Some(ParseError::Expected(_, _))));
    match &call_of(&statement).positional[1].expr {
        Expr::Keyword(_, _, value) => assert_eq!(value.expr, Expr::Garbage),
        other => panic!("no keyword: {:?}", other),
    }
    assert!(working_set.find_variable(b"$x").is_some());
}

#[test]
fn let_leaves_the_type_of_the_configuration() {
    let mut working_set = session();
    for _ in 0..3 {
        working_set.add_variable(b"$reserved".to_vec(), Type::Any);
    }
    let spans = load(&mut working_set, "let config = 5");
    let mut order = vec![];
    let (_, error) = run_let(&mut working_set, &spans, None, &mut order);
    assert_eq!(error, None);
    assert_eq!(working_set.get_variable_type(CONFIG_VARIABLE_ID), Some(&Type::Any));
}

#[test]
fn let_without_an_equals_sign_is_parsed_as_a_call() {
    let mut working_set = session();
    for text in ["let x 1 2", "let x", "let x y ="] {
        let spans = load(&mut working_set, text);
        let mut order = vec![];
        let (statement, error) = run_let(&mut working_set, &spans, None, &mut order);
        assert_eq!(order, vec!["call"]);
        let after = Span { start: spans[0].end, end: spans[0].end };
        assert_eq!(error, Some(ParseError::MissingPositional("var_name".to_string(), after)));
        assert_eq!(Some(call_of(&statement).decl_id), working_set.find_decl(b"let"));
        assert_eq!(outer_span(&statement), whole(&spans));
    }
}

#[test]
fn let_splits_at_the_first_equals_sign() {
    let mut working_set = session();
    let spans = load(&mut working_set, "let x = a = b");
    let progress = parse_let(&mut working_set, &spans);
    let progress = match progress {
        LetProgress::CheckName(state) => state.resume(&mut working_set, None),
        other => panic!("not expected: {:?}", other),
    };
    match progress {
        LetProgress::ParseValue(state) => assert_eq!(state.equals, 2),
        other => panic!("not expected: {:?}", other),
    }
}

#[test]
fn let_with_a_bad_name_is_garbage_where_the_verdict_says() {
    let mut working_set = session();
    let spans = load(&mut working_set, "let = 1 2");
    let verdict = (spans[1], ParseError::Expected("name".to_string(), spans[1]));
    let mut order = vec![];
    let (statement, error) = run_let(&mut working_set, &spans, Some(verdict), &mut order);
    assert_eq!(error, Some(ParseError::Expected("name".to_string(), spans[1])));
    assert!(is_garbage(&statement, spans[1]));
    assert!(order.is_empty());
}

#[test]
fn let_of_something_else_is_an_unknown_state() {
    let mut working_set = session();
    let spans = load(&mut working_set, "echo x = 1");
    let mut order = vec![];
    let (statement, error) = run_let(&mut working_set, &spans, None, &mut order);
    assert_eq!(
        error,
        Some(ParseError::UnknownState(
            "internal error: let statement unparseable".to_string(),
            whole(&spans)
        ))
    );
    assert!(is_garbage(&statement, whole(&spans)));

    let mut bare = WorkingSet::new();
    let spans = load(&mut bare, "let x = 1");
    let (statement, error) = run_let(&mut bare, &spans, None, &mut order);
    assert_eq!(
        error,
        Some(ParseError::UnknownState(
            "internal error: let statement unparseable".to_string(),
            whole(&spans)
        ))
    );
    assert!(is_garbage(&statement, whole(&spans)));
}

// ---------------------------------------------------------------------------
// source
// ---------------------------------------------------------------------------

fn run_source(
    working_set: &mut WorkingSet,
    spans: &[Span],
    found: Option<Sourced>,
    call_error: Option<ParseError>,
) -> (Statement, Option<ParseError>) {
    let mut progress = parse_source(working_set, spans);
    let mut found = found;
    loop {
        match progress {
            SourceProgress::ParseCall(state) => {
                let request = state.request();
                let mut call = Call::new(request.head, request.decl_id);
                for span in request.arguments {
                    call.positional.push(string_at(working_set, span));
                }
                progress =
                    state.resume(working_set, ParsedCall { call, error: call_error.clone() });
            }
            SourceProgress::ReadFile(state) => {
                progress = state.resume(working_set, found.take().unwrap_or(Sourced::NotFound));
            }
            SourceProgress::Done(statement, error) => return (statement, error),
        }
    }
}

#[test]
fn source_hands_the_block_of_the_file_to_the_call() {
    let mut working_set = session();
    let spans = load(&mut working_set, "source lib.nu");
    let blocks = working_set.num_blocks();
    let found = Sourced::Parsed { block: empty_block(), error: None };
    let (statement, error) = run_source(&mut working_set, &spans, Some(found), None);
    assert_eq!(error, None);
    assert_eq!(working_set.num_blocks(), blocks + 1);
    let call = call_of(&statement);
    assert_eq!(Some(call.decl_id), working_set.find_decl(b"source"));
    assert_eq!(call.positional.len(), 2);
    assert_eq!(call.positional[0].expr, Expr::String("lib.nu".to_string()));
    assert_eq!(call.positional[1].expr, Expr::Int(blocks as i64));
    assert_eq!(call.positional[1].span, spans[1]);
    assert_eq!(outer_span(&statement), whole(&spans));
}

#[test]
fn source_asks_for_the_file_by_its_name() {
    let mut working_set = session();
    let spans = load(&mut working_set, "source lib/a.nu");
    let progress = parse_source(&mut working_set, &spans);
    let progress = match progress {
        SourceProgress::ParseCall(state) => {
            let request = state.request();
            assert_eq!(request.head, spans[0]);
            assert_eq!(request.arguments, vec![spans[1]]);
            assert_eq!(Some(request.decl_id), working_set.find_decl(b"source"));
            let call = Call::new(request.head, request.decl_id);
            state.resume(&mut working_set, ParsedCall { call, error: None })
        }
        other => panic!("not expected: {:?}", other),
    };
    match progress {
        SourceProgress::ReadFile(state) => assert_eq!(state.request(), "lib/a.nu"),
        other => panic!("not expected: {:?}", other),
    }
}

#[test]
fn source_of_a_missing_file_is_a_file_not_found() {
    let mut working_set = session();
    let spans = load(&mut working_set, "source missing.nu");
    let blocks = working_set.num_blocks();
    let (statement, error) = run_source(&mut working_set, &spans, None, None);
    assert_eq!(error, Some(ParseError::FileNotFound("missing.nu".to_string(), spans[1])));
    assert_eq!(call_of(&statement).positional.len(), 1);
    assert_eq!(working_set.num_blocks(), blocks);
}

#[test]
fn source_of_a_file_that_does_not_parse_gives_the_call_without_the_block() {
    let mut working_set = session();
    let spans = load(&mut working_set, "source bad.nu");
    let blocks = working_set.num_blocks();
    let failure = ParseError::Unclosed("}".to_string(), Span { start: 90, end: 90 });
    let found = Sourced::Parsed { block: empty_block(), error: Some(failure.clone()) };
    let (statement, error) = run_source(&mut working_set, &spans, Some(found), None);
    assert_eq!(error, Some(failure));
    assert_eq!(call_of(&statement).positional.len(), 1);
    assert_eq!(working_set.num_blocks(), blocks);
    assert_eq!(outer_span(&statement), spans[1]);
}

#[test]
fn source_keeps_the_error_of_its_call() {
    let mut working_set = session();
    let spans = load(&mut working_set, "source bad.nu");
    let first = ParseError::Expected("filename".to_string(), spans[1]);
    let failure = ParseError::Unclosed("}".to_string(), Span { start: 90, end: 90 });
    let found = Sourced::Parsed { block: empty_block(), error: Some(failure) };
    let (_, error) = run_source(&mut working_set, &spans, Some(found), Some(first.clone()));
    assert_eq!(error, Some(first));
}

#[test]
fn source_of_a_name_that_is_no_text_is_not_utf8() {
    let mut working_set = session();
    let base = working_set.next_span_start();
    working_set.add_file("test".to_string(), b"source \xc3\x28");
    let spans = vec![Span { start: base, end: base + 6 }, Span { start: base + 7, end: base + 9 }];
    let mut progress = parse_source(&mut working_set, &spans);
    let (statement, error) = loop {
        match progress {
            SourceProgress::ParseCall(state) => {
                let request = state.request();
                let call = Call::new(request.head, request.decl_id);
                progress = state.resume(&mut working_set, ParsedCall { call, error: None });
            }
            SourceProgress::Done(statement, error) => break (statement, error),
            other => panic!("not expected: {:?}", other),
        }
    };
    assert_eq!(error, Some(ParseError::NonUtf8(spans[1])));
    assert!(is_garbage(&statement, whole(&spans)));
}

#[test]
fn source_alone_is_its_call() {
    let mut working_set = session();
    let spans = load(&mut working_set, "source");
    let missing = ParseError::MissingPositional("filename".to_string(), spans[0]);
    let (statement, error) = run_source(&mut working_set, &spans, None, Some(missing.clone()));
    assert_eq!(error, Some(missing));
    assert_eq!(call_of(&statement).positional.len(), 0);
}

#[test]
fn source_of_something_else_is_an_unknown_state() {
    let mut working_set = session();
    let spans = load(&mut working_set, "echo lib.nu");
    let (statement, error) = run_source(&mut working_set, &spans, None, None);
    assert_eq!(
        error,
        Some(ParseError::UnknownState(
            "internal error: source statement unparseable".to_string(),
            whole(&spans)
        ))
    );
    assert!(is_garbage(&statement, whole(&spans)));
}

// ---------------------------------------------------------------------------
// register
// ---------------------------------------------------------------------------

/// What a stand-in finds on disk and in the plugin: the files that exist,
/// the signature that JSON text decodes to, and what the plugin answers.
struct World {
    files: Vec<&'static str>,
    directories: Vec<&'static str>,
    fetched: Result<Vec<&'static str>, &'static str>,
    check_error: Option<ParseError>,
}

fn world() -> World {
    World {
        files: vec!["/bin/plugin", "/bin/sh"],
        directories: vec!["/bin"],
        fetched: Ok(vec!["inc", "dec"]),
        check_error: None,
    }
}

fn probe(world: &World, name: &str) -> PathProbe {
    if world.files.contains(&name) {
        PathProbe::File { path: name.to_string() }
    } else if world.directories.contains(&name) {
        PathProbe::NotAFile { shown: format!("{:?}", name) }
    } else {
        PathProbe::NotFound
    }
}

/// Decodes `{"name": "..."}`, and nothing else.
fn decode(text: &[u8]) -> Option<Signature> {
    let text = std::str::from_utf8(text).ok()?;
    let name = text.strip_prefix("{\"name\":\"")?.strip_suffix("\"}")?;
    Some(Signature::build(name))
}

fn run_register(
    working_set: &mut WorkingSet,
    spans: &[Span],
    world: &World,
) -> (Statement, Option<ParseError>) {
    let mut progress = parse_register(working_set, spans);
    loop {
        match progress {
            RegisterProgress::ParseCall(state) => {
                let request = state.request();
                let mut call = Call::new(request.head, request.decl_id);
                let mut arguments = request.arguments.into_iter();
                while let Some(span) = arguments.next() {
                    let text = text_at(working_set, span);
                    if let Some(flag) = text.strip_prefix("--") {
                        let value = if flag == "help" {
                            None
                        } else {
                            arguments.next().map(|span| string_at(working_set, span))
                        };
                        call.named.push((flag.to_string(), value));
                    } else {
                        call.positional.push(string_at(working_set, span));
                    }
                }
                let checked = CheckedCall {
                    call,
                    parse_error: None,
                    check_error: world.check_error.clone(),
                };
                progress = state.resume(working_set, checked);
            }
            RegisterProgress::Probe(state) => {
                let probed = Probed {
                    plugin: state.plugin.as_ref().ok().map(|asked| probe(world, &asked.name)),
                    shell: match &state.shell {
                        Some(Ok(asked)) => Some(probe(world, &asked.name)),
                        _ => None,
                    },
                    signature: state.signature.as_ref().and_then(|text| decode(text)),
                };
                progress = state.resume(working_set, probed);
            }
            RegisterProgress::Fetch(state) => {
                let fetched = match &world.fetched {
                    Ok(names) => Ok(names.iter().map(|name| Signature::build(name)).collect()),
                    Err(text) => Err(text.to_string()),
                };
                progress = state.resume(working_set, fetched);
            }
            RegisterProgress::Done(statement, error) => return (statement, error),
        }
    }
}

fn plugin_of(working_set: &WorkingSet, name: &[u8]) -> (String, Encoding, Option<String>) {
    match working_set.get_decl(working_set.find_decl(name).expect("the command is declared")) {
        Some(Decl::Plugin { path, encoding, shell, signature }) => {
            assert_eq!(signature.name.as_bytes(), name);
            (path.clone(), *encoding, shell.clone())
        }
        other => panic!("no plugin command: {:?}", other),
    }
}

#[test]
fn register_with_a_signature_declares_that_command() {
    let mut working_set = session();
    let spans =
        load(&mut working_set, "register /bin/plugin {\"name\":\"inc\"} --encoding json");
    assert!(!working_set.plugins_file_dirty());
    let (statement, error) = run_register(&mut working_set, &spans, &world());
    assert_eq!(error, None);
    assert_eq!(plugin_of(&working_set, b"inc"), ("/bin/plugin".to_string(), Encoding::Json, None));
    assert!(working_set.plugins_file_dirty());
    assert_eq!(working_set.find_decl(b"dec"), None);
    assert_eq!(Some(call_of(&statement).decl_id), working_set.find_decl(b"register"));
    assert_eq!(outer_span(&statement), whole(&spans));
    match &statement {
        Statement::Pipeline(pipeline) => assert_eq!(pipeline.expressions[0].ty, Type::Nothing),
        other => panic!("no pipeline: {:?}", other),
    }
}

#[test]
fn register_without_a_signature_asks_the_plugin() {
    let mut working_set = session();
    let spans =
        load(&mut working_set, "register /bin/plugin --encoding capnp --shell /bin/sh");
    let decls = working_set.num_decls();
    let (_, error) = run_register(&mut working_set, &spans, &world());
    assert_eq!(error, None);
    let expected = ("/bin/plugin".to_string(), Encoding::Capnp, Some("/bin/sh".to_string()));
    assert_eq!(plugin_of(&working_set, b"inc"), expected);
    assert_eq!(plugin_of(&working_set, b"dec"), expected);
    assert_eq!(working_set.find_decl(b"inc"), Some(decls));
    assert_eq!(working_set.find_decl(b"dec"), Some(decls + 1));
    assert!(working_set.plugins_file_dirty());
}

#[test]
fn register_with_a_wrong_encoding_is_an_incorrect_value() {
    let mut working_set = session();
    for encoding in ["yaml", "JSON", "jsonx", "capn"] {
        let text = format!("register /bin/plugin --encoding {}", encoding);
        let spans = load(&mut working_set, &text);
        let decls = working_set.num_decls();
        let (statement, error) = run_register(&mut working_set, &spans, &world());
        assert_eq!(
            error,
            Some(ParseError::IncorrectValue(
                "wrong encoding".to_string(),
                spans[3],
                "Encodings available: capnp and json".to_string()
            ))
        );
        assert_eq!(working_set.num_decls(), decls);
        assert!(!working_set.plugins_file_dirty());
        assert_eq!(call_of(&statement).positional.len(), 1);
    }
}

#[test]
fn register_of_a_missing_plugin_is_a_file_not_found() {
    let mut working_set = session();
    let spans = load(&mut working_set, "register /bin/nothing --encoding json");
    let (_, error) = run_register(&mut working_set, &spans, &world());
    assert_eq!(error, Some(ParseError::FileNotFound("/bin/nothing".to_string(), spans[1])));

    // A directory is no plugin: the path is shown as the caller shows it.
    let spans = load(&mut working_set, "register /bin --encoding json");
    let (_, error) = run_register(&mut working_set, &spans, &world());
    assert_eq!(error, Some(ParseError::FileNotFound("\"/bin\"".to_string(), spans[1])));

    // The path goes before the encoding.
    let spans = load(&mut working_set, "register /bin/nothing --encoding yaml");
    let (_, error) = run_register(&mut working_set, &spans, &world());
    assert_eq!(error, Some(ParseError::FileNotFound("/bin/nothing".to_string(), spans[1])));
}

#[test]
fn register_with_a_signature_that_is_no_json_is_a_labeled_error() {
    let mut working_set = session();
    let spans = load(&mut working_set, "register /bin/plugin {oops} --encoding json");
    let decls = working_set.num_decls();
    let (statement, error) = run_register(&mut working_set, &spans, &world());
    assert_eq!(
        error,
        Some(ParseError::LabeledError(
            "Signature deserialization error".to_string(),
            "unable to deserialize signature".to_string(),
            spans[0]
        ))
    );
    assert_eq!(working_set.num_decls(), decls);
    assert!(!working_set.plugins_file_dirty());
    assert_eq!(call_of(&statement).positional.len(), 2);
}

#[test]
fn register_with_a_shell_that_is_not_there_ends_with_that_error() {
    let mut working_set = session();
    let spans =
        load(&mut working_set, "register /bin/plugin --encoding json --shell /bin/zsh");
    let decls = working_set.num_decls();
    let (statement, error) = run_register(&mut working_set, &spans, &world());
    assert_eq!(error, Some(ParseError::FileNotFound("/bin/zsh".to_string(), spans[5])));
    assert_eq!(working_set.num_decls(), decls);
    match &statement {
        Statement::Pipeline(pipeline) => assert_eq!(pipeline.expressions[0].ty, Type::Unknown),
        other => panic!("no pipeline: {:?}", other),
    }
}

#[test]
fn register_reports_the_plugin_before_the_shell() {
    let mut working_set = session();
    let spans =
        load(&mut working_set, "register /bin/nothing --encoding json --shell /bin/zsh");
    let (statement, error) = run_register(&mut working_set, &spans, &world());
    assert_eq!(error, Some(ParseError::FileNotFound("/bin/nothing".to_string(), spans[1])));
    match &statement {
        Statement::Pipeline(pipeline) => assert_eq!(pipeline.expressions[0].ty, Type::Unknown),
        other => panic!("no pipeline: {:?}", other),
    }
}

#[test]
fn register_of_a_plugin_that_fails_is_a_labeled_error() {
    let mut working_set = session();
    let spans = load(&mut working_set, "register /bin/plugin --encoding json");
    let world = World { fetched: Err("Plugin missing signature"), ..world() };
    let decls = working_set.num_decls();
    let (_, error) = run_register(&mut working_set, &spans, &world);
    assert_eq!(
        error,
        Some(ParseError::LabeledError(
            "Error getting signatures".to_string(),
            "Plugin missing signature".to_string(),
            spans[0]
        ))
    );
    assert_eq!(working_set.num_decls(), decls);
    assert!(!working_set.plugins_file_dirty());
}

#[test]
fn register_with_a_call_that_does_not_check_is_the_call_and_the_error() {
    let mut working_set = session();
    let spans = load(&mut working_set, "register /bin/plugin");
    let missing = ParseError::MissingPositional("encoding".to_string(), spans[1]);
    let world = World { check_error: Some(missing.clone()), ..world() };
    let (statement, error) = run_register(&mut working_set, &spans, &world);
    assert_eq!(error, Some(missing));
    assert_eq!(call_of(&statement).positional.len(), 1);
}

#[test]
fn register_with_help_does_nothing() {
    let mut working_set = session();
    let spans = load(&mut working_set, "register --help");
    let decls = working_set.num_decls();
    let (statement, error) = run_register(&mut working_set, &spans, &world());
    assert_eq!(error, None);
    assert_eq!(working_set.num_decls(), decls);
    assert!(call_of(&statement).has_flag("help"));
}

#[test]
fn register_without_its_arguments_reports_what_is_not_there() {
    let mut working_set = session();
    // A caller that does not check the call: the parser stands on its own.
    let spans = load(&mut working_set, "register");
    let (_, error) = run_register(&mut working_set, &spans, &world());
    assert_eq!(error, Some(ParseError::FileNotFound("".to_string(), whole(&spans))));

    let spans = load(&mut working_set, "register /bin/plugin");
    let (_, error) = run_register(&mut working_set, &spans, &world());
    assert_eq!(
        error,
        Some(ParseError::IncorrectValue(
            "wrong encoding".to_string(),
            whole(&spans),
            "Encodings available: capnp and json".to_string()
        ))
    );
}

#[test]
fn register_of_a_path_that_is_no_text_is_not_utf8() {
    let mut working_set = session();
    let base = working_set.next_span_start();
    working_set.add_file("test".to_string(), b"register \xff --encoding json");
    let spans = vec![
        Span { start: base, end: base + 8 },
        Span { start: base + 9, end: base + 10 },
        Span { start: base + 11, end: base + 21 },
        Span { start: base + 22, end: base + 26 },
    ];
    let mut progress = parse_register(&mut working_set, &spans);
    let (_, error) = loop {
        match progress {
            RegisterProgress::ParseCall(state) => {
                let request = state.request();
                let mut call = Call::new(request.head, request.decl_id);
                call.positional.push(Expression {
                    expr: Expr::Garbage,
                    span: spans[1],
                    ty: Type::Unknown,
                    custom_completion: None,
                });
                call.named.push(("encoding".to_string(), Some(string_at(&working_set, spans[3]))));
                let checked = CheckedCall { call, parse_error: None, check_error: None };
                progress = state.resume(&mut working_set, checked);
            }
            RegisterProgress::Probe(state) => {
                assert!(state.plugin.is_err());
                let probed = Probed { plugin: None, shell: None, signature: None };
                progress = state.resume(&mut working_set, probed);
            }
            RegisterProgress::Done(statement, error) => break (statement, error),
            other => panic!("not expected: {:?}", other),
        }
    };
    assert_eq!(error, Some(ParseError::NonUtf8(spans[1])));
}

#[test]
fn register_of_something_else_is_an_unknown_state() {
    let mut working_set = session();
    let spans = load(&mut working_set, "echo /bin/plugin");
    let (statement, error) = run_register(&mut working_set, &spans, &world());
    assert_eq!(
        error,
        Some(ParseError::UnknownState(
            "internal error: Wrong call name for parse plugin function".to_string(),
            whole(&spans)
        ))
    );
    assert!(is_garbage(&statement, whole(&spans)));

    let mut bare = WorkingSet::new();
    let spans = load(&mut bare, "register /bin/plugin --encoding json");
    let (statement, error) = run_register(&mut bare, &spans, &world());
    assert_eq!(
        error,
        Some(ParseError::UnknownState(
            "internal error: Register declaration not found".to_string(),
            whole(&spans)
        ))
    );
    assert!(is_garbage(&statement, whole(&spans)));
}

// ---------------------------------------------------------------------------
// dispatch
// ---------------------------------------------------------------------------

#[test]
fn keywords_are_told_by_their_bytes() {
    assert_eq!(keyword(b"def"), Some(Keyword::Def));
    assert_eq!(keyword(b"alias"), Some(Keyword::Alias));
    assert_eq!(keyword(b"export"), Some(Keyword::Export));
    assert_eq!(keyword(b"module"), Some(Keyword::Module));
    assert_eq!(keyword(b"use"), Some(Keyword::Use));
    assert_eq!(keyword(b"hide"), Some(Keyword::Hide));
    assert_eq!(keyword(b"let"), Some(Keyword::Let));
    assert_eq!(keyword(b"source"), Some(Keyword::Source));
    assert_eq!(keyword(b"register"), Some(Keyword::Register));
    for other in [&b"echo"[..], b"", b"Def", b"def ", b"defs", b"de", b"export def"] {
        assert_eq!(keyword(other), None);
    }
}

#[test]
fn a_statement_goes_to_the_parser_of_its_first_word() {
    let mut working_set = session();
    let cases: [(&str, fn(&Dispatched) -> bool); 10] = [
        ("def foo [] { 1 }", |d| matches!(d, Dispatched::Def(DefProgress::Parse(_)))),
        ("alias a = b", |d| matches!(d, Dispatched::Alias(AliasProgress::CheckName(_)))),
        ("export def a [] { 1 }", |d| matches!(d, Dispatched::Export(ExportProgress::Parse(_)))),
        ("module m { }", |d| matches!(d, Dispatched::Module(ModuleProgress::ParseName(_)))),
        ("use m", |d| matches!(d, Dispatched::Use(ImportProgress::ParseString(_)))),
        ("hide m", |d| matches!(d, Dispatched::Hide(ImportProgress::ParseString(_)))),
        ("let x = 1", |d| matches!(d, Dispatched::Let(LetProgress::CheckName(_)))),
        ("source a.nu", |d| matches!(d, Dispatched::Source(SourceProgress::ParseCall(_)))),
        ("register p", |d| matches!(d, Dispatched::Register(RegisterProgress::ParseCall(_)))),
        ("echo def", |d| matches!(d, Dispatched::Regular)),
    ];
    for (text, expected) in cases {
        let spans = load(&mut working_set, text);
        let dispatched = dispatch(&mut working_set, &spans);
        assert!(expected(&dispatched), "{}: {:?}", text, dispatched);
    }
    assert!(matches!(dispatch(&mut working_set, &[]), Dispatched::Regular));
}

#[test]
fn block_requests_say_whether_the_block_has_parameters() {
    let mut working_set = session();
    let spans = load(&mut working_set, "def foo [] { 1 }");
    let mut progress = parse_def(&mut working_set, &spans);
    let mut asked = vec![];
    loop {
        match progress {
            DefProgress::Parse(state) => {
                asked.push(state.request());
                let parsed = answer(&mut working_set, state.request());
                progress = state.resume(&mut working_set, parsed);
            }
            DefProgress::Done(..) => break,
        }
    }
    let no_shapes: Vec<SyntaxShape> = vec![];
    assert_eq!(
        asked,
        vec![
            Request::String(spans[1]),
            Request::Signature(spans[2]),
            Request::Block { span: spans[3], params: Some(no_shapes) },
        ]
    );

    let spans = load(&mut working_set, "export env a { 1 }");
    let mut progress = parse_export(&mut working_set, &spans);
    let mut asked = vec![];
    loop {
        match progress {
            ExportProgress::Parse(state) => {
                asked.push(state.request());
                let parsed = answer(&mut working_set, state.request());
                progress = state.resume(&mut working_set, parsed);
            }
            ExportProgress::Done(..) => break,
        }
    }
    assert_eq!(
        asked,
        vec![Request::String(spans[2]), Request::Block { span: spans[3], params: None }]
    );
}

// ---------------------------------------------------------------------------
// whatever the input
// ---------------------------------------------------------------------------

/// Runs a statement through the parser of its keyword, from the first step
/// to the last.
fn run_statement(
    working_set: &mut WorkingSet,
    spans: &[Span],
) -> Option<(Statement, Option<ParseError>)> {
    let keyword = match spans.first() {
        Some(first) => keyword(working_set.get_span_contents(*first)),
        None => None,
    };
    let mut order = vec![];
    Some(match keyword? {
        Keyword::Def => run_def(working_set, spans),
        Keyword::Alias => run_alias(working_set, spans, None),
        Keyword::Export => {
            let (statement, _, error) = run_export(working_set, spans);
            (statement, error)
        }
        Keyword::Module => run_module(working_set, spans),
        Keyword::Use => run_use(working_set, spans, &[("lib.nu", "lib", "export def l [] { 1 }")]),
        Keyword::Hide => run_hide(working_set, spans),
        Keyword::Let => run_let(working_set, spans, None, &mut order),
        Keyword::Source => run_source(working_set, spans, None, None),
        Keyword::Register => run_register(working_set, spans, &world()),
    })
}

const STATEMENTS: [&str; 44] = [
    "def",
    "def foo",
    "def foo []",
    "def foo [] { 1 }",
    "def foo [] { 1 } more tokens",
    "def foo bar baz",
    "def \"foo bar\" [] { 1 }",
    "alias",
    "alias a",
    "alias a =",
    "alias a = b",
    "alias a = b c d",
    "export",
    "export def",
    "export def a",
    "export def a []",
    "export def a [] { 1 }",
    "export env",
    "export env a",
    "export env a { 1 }",
    "export env a b",
    "export foo",
    "module",
    "module m",
    "module m { }",
    "module m {",
    "module m { def a [] { 1 }; export def b [] { a }; export env c { 2 }; echo x; export }",
    "module m n",
    "use",
    "use m",
    "use m *",
    "use m [a b]",
    "use lib.nu",
    "use missing.nu",
    "hide",
    "hide m",
    "hide foo",
    "let",
    "let x",
    "let x = 1",
    "let x: int = 1 + 2",
    "source",
    "source a.nu",
    "register /bin/plugin --encoding json",
];

#[test]
fn every_parser_gives_a_statement_and_leaves_the_scopes_as_they_were() {
    for depth in [0usize, 1, 3] {
        let mut working_set = session();
        for _ in 0..depth {
            working_set.enter_scope();
        }
        for text in STATEMENTS {
            let spans = load(&mut working_set, text);
            let decls = working_set.num_decls();
            let blocks = working_set.num_blocks();
            let (statement, _) = run_statement(&mut working_set, &spans)
                .unwrap_or_else(|| panic!("{} starts with no keyword", text));
            assert_eq!(working_set.scope_depth(), depth, "{}", text);
            assert!(working_set.num_decls() >= decls, "{}", text);
            assert!(working_set.num_blocks() >= blocks, "{}", text);
            match &statement {
                Statement::Pipeline(pipeline) => {
                    assert_eq!(pipeline.expressions.len(), 1, "{}", text);
                    let expression = &pipeline.expressions[0];
                    assert!(
                        matches!(expression.expr, Expr::Call(_) | Expr::Garbage),
                        "{}: {:?}",
                        text,
                        expression
                    );
                }
                other => panic!("{}: no pipeline: {:?}", text, other),
            }
        }
    }
}

#[test]
fn every_parser_stands_without_the_commands_of_the_shell() {
    let mut working_set = WorkingSet::new();
    for text in STATEMENTS {
        let spans = load(&mut working_set, text);
        let (_, error) = run_statement(&mut working_set, &spans)
            .unwrap_or_else(|| panic!("{} starts with no keyword", text));
        assert_eq!(working_set.scope_depth(), 0, "{}", text);
        assert!(error.is_some(), "{}", text);
    }
}

#[test]
fn a_module_keeps_what_it_does_not_export_to_itself() {
    let mut working_set = session();
    let spans = load(
        &mut working_set,
        "module m { def helper [] { 1 }; export def shown [] { helper } }",
    );
    let (_, error) = run_module(&mut working_set, &spans);
    assert_eq!(error, None);
    let overlay = overlay_of(&working_set, b"m");
    assert_eq!(overlay.decls().len(), 1);
    assert!(overlay.get_decl_id(b"shown").is_some());
    assert_eq!(overlay.get_decl_id(b"helper"), None);
    assert_eq!(working_set.find_decl(b"helper"), None);
    assert_eq!(working_set.find_decl(b"shown"), None);
}

#[test]
fn a_module_drops_the_errors_of_its_first_pass() {
    let mut working_set = session();
    let spans = load(&mut working_set, "module m { export def f [] { 1 }; export def f [] { 2 } }");
    let depth = working_set.scope_depth();
    let (_, error) = run_module(&mut working_set, &spans);
    assert_eq!(error, None);
    assert_eq!(working_set.scope_depth(), depth);
    let overlay = overlay_of(&working_set, b"m");
    assert_eq!(overlay.decls().len(), 1);
    let id = overlay.get_decl_id(b"f").expect("f is exported");
    assert!(matches!(working_set.get_decl(id), Some(Decl::Block { .. })));
}

#[test]
fn a_module_file_with_an_error_is_used_all_the_same() {
    let mut working_set = session();
    let spans = load(&mut working_set, "use lib.nu *");
    let start = working_set.next_span_start();
    let text = "echo hi; export def l [] { 1 }";
    let (statement, error) = run_use(&mut working_set, &spans, &[("lib.nu", "lib", text)]);
    assert_eq!(
        error,
        Some(ParseError::UnexpectedKeyword(
            "expected def or export keyword".to_string(),
            Span { start, end: start + 4 }
        ))
    );
    assert!(working_set.find_overlay(b"lib").is_some());
    assert!(working_set.find_decl(b"l").is_some());
    assert_eq!(Some(call_of(&statement).decl_id), working_set.find_decl(b"use"));
}

#[test]
fn a_quoted_name_is_exported_without_its_quotes() {
    let mut working_set = session();
    let spans = load(&mut working_set, "module m { export def \"a b\" [] { 1 } }");
    let (_, error) = run_module(&mut working_set, &spans);
    assert_eq!(error, None);
    let overlay = overlay_of(&working_set, b"m");
    assert!(overlay.get_decl_id(b"a b").is_some());
    let spans = load(&mut working_set, "use m");
    run_use(&mut working_set, &spans, &[]);
    assert!(working_set.find_decl(b"m a b").is_some());
}

//! Which keyword parser a statement goes to.

use vstd::prelude::*;
use crate::alias::{begins_alias, parse_alias, AliasProgress};
use crate::binding::{begins_let, parse_let, LetProgress};
use crate::bytes::{is_word, word};
use crate::def::{begins_def, parse_def, DefProgress};
use crate::export::{begins_export, parse_export, ExportProgress};
use crate::import::{begins_import, parse_hide, parse_use, ImportKind, ImportProgress};
use crate::model::WorkingSetView;
use crate::module::{begins_module, parse_module, ModuleProgress};
use crate::register::{begins_register, parse_register, RegisterProgress};
use crate::source::{begins_source, parse_source, SourceProgress};
use crate::span::Span;
use crate::working_set::WorkingSet;

verus! {

/// The reserved first words of statements that this crate parses.
#[derive(Clone, Copy, Debug, PartialEq, Eq, Structural)]
pub enum Keyword {
    Def,
    Alias,
    Export,
    Module,
    Use,
    Hide,
    Let,
    Source,
    Register,
}

/// The keyword that `bytes` spells, if any.
pub open spec fn keyword_named(bytes: Seq<u8>) -> Option<Keyword> {
    if bytes == word("def") {
        Some(Keyword::Def)
    } else if bytes == word("alias") {
        Some(Keyword::Alias)
    } else if bytes == word("export") {
        Some(Keyword::Export)
    } else if bytes == word("module") {
        Some(Keyword::Module)
    } else if bytes == word("use") {
        Some(Keyword::Use)
    } else if bytes == word("hide") {
        Some(Keyword::Hide)
    } else if bytes == word("let") {
        Some(Keyword::Let)
    } else if bytes == word("source") {
        Some(Keyword::Source)
    } else if bytes == word("register") {
        Some(Keyword::Register)
    } else {
        None
    }
}

/// The keyword that `bytes` spells, if any.
pub fn keyword(bytes: &[u8]) -> (found: Option<Keyword>)
    ensures
        found == keyword_named(bytes@),
{
    if is_word(bytes, "def") {
        Some(Keyword::Def)
    } else if is_word(bytes, "alias") {
        Some(Keyword::Alias)
    } else if is_word(bytes, "export") {
        Some(Keyword::Export)
    } else if is_word(bytes, "module") {
        Some(Keyword::Module)
    } else if is_word(bytes, "use") {
        Some(Keyword::Use)
    } else if is_word(bytes, "hide") {
        Some(Keyword::Hide)
    } else if is_word(bytes, "let") {
        Some(Keyword::Let)
    } else if is_word(bytes, "source") {
        Some(Keyword::Source)
    } else if is_word(bytes, "register") {
        Some(Keyword::Register)
    } else {
        None
    }
}

/// The keyword that a statement with the tokens `spans` starts with, if it
/// starts with one.
pub open spec fn keyword_of(working_set: WorkingSetView, spans: Seq<Span>) -> Option<Keyword> {
    if spans.len() > 0 {
        keyword_named(working_set.span_contents(spans[0]))
    } else {
        None
    }
}

/// A statement in the hands of the parser of its keyword.
#[derive(Debug, PartialEq, Eq)]
pub enum Dispatched {
    Def(DefProgress),
    Alias(AliasProgress),
    Export(ExportProgress),
    Module(ModuleProgress),
    Use(ImportProgress),
    Hide(ImportProgress),
    Let(LetProgress),
    Source(SourceProgress),
    Register(RegisterProgress),
    /// The statement starts with no keyword of this crate: it is a call like
    /// any other, for the caller to parse.
    Regular,
}

impl Dispatched {
    /// The keyword whose parser has the statement.
    pub open spec fn keyword(self) -> Option<Keyword> {
        match self {
            Dispatched::Def(_) => Some(Keyword::Def),
            Dispatched::Alias(_) => Some(Keyword::Alias),
            Dispatched::Export(_) => Some(Keyword::Export),
            Dispatched::Module(_) => Some(Keyword::Module),
            Dispatched::Use(_) => Some(Keyword::Use),
            Dispatched::Hide(_) => Some(Keyword::Hide),
            Dispatched::Let(_) => Some(Keyword::Let),
            Dispatched::Source(_) => Some(Keyword::Source),
            Dispatched::Register(_) => Some(Keyword::Register),
            Dispatched::Regular => None,
        }
    }
}

impl Dispatched {
    /// Whether the progress is how the parser that has the statement answers
    /// the tokens `spans` in `working_set`.
    pub open spec fn begins(self, working_set: WorkingSetView, spans: Seq<Span>) -> bool {
        match self {
            Dispatched::Def(progress) => begins_def(working_set, spans, progress),
            Dispatched::Alias(progress) => begins_alias(working_set, spans, progress),
            Dispatched::Export(progress) => begins_export(working_set, spans, progress),
            Dispatched::Module(progress) => begins_module(working_set, spans, progress),
            Dispatched::Use(progress) => begins_import(
                ImportKind::Use,
                working_set,
                spans,
                progress,
            ),
            Dispatched::Hide(progress) => begins_import(
                ImportKind::Hide,
                working_set,
                spans,
                progress,
            ),
            Dispatched::Let(progress) => begins_let(working_set, spans, progress),
            Dispatched::Source(progress) => begins_source(working_set, spans, progress),
            Dispatched::Register(progress) => begins_register(working_set, spans, progress),
            Dispatched::Regular => true,
        }
    }
}

/// Hands a statement to the parser of the keyword that it starts with.
///
/// The choice goes by the bytes of the first token alone. What the parser
/// chosen answers is in the contract of that parser. The working set is not
/// changed.
pub fn dispatch(working_set: &mut WorkingSet, spans: &[Span]) -> (dispatched: Dispatched)
    ensures
        final(working_set)@ == old(working_set)@,
        dispatched.keyword() == keyword_of(old(working_set)@, spans@),
        dispatched.begins(old(working_set)@, spans@),
{
    if spans.len() == 0 {
        return Dispatched::Regular;
    }
    match keyword(working_set.get_span_contents(spans[0])) {
        Some(Keyword::Def) => Dispatched::Def(parse_def(working_set, spans)),
        Some(Keyword::Alias) => Dispatched::Alias(parse_alias(working_set, spans)),
        Some(Keyword::Export) => Dispatched::Export(parse_export(working_set, spans)),
        Some(Keyword::Module) => Dispatched::Module(parse_module(working_set, spans)),
        Some(Keyword::Use) => Dispatched::Use(parse_use(working_set, spans)),
        Some(Keyword::Hide) => Dispatched::Hide(parse_hide(working_set, spans)),
        Some(Keyword::Let) => Dispatched::Let(parse_let(working_set, spans)),
        Some(Keyword::Source) => Dispatched::Source(parse_source(working_set, spans)),
        Some(Keyword::Register) => Dispatched::Register(parse_register(working_set, spans)),
        None => Dispatched::Regular,
    }
}

} // verus!

//! What a keyword parser reports when it cannot make sense of its input.

use vstd::prelude::*;
use crate::span::Span;

verus! {

/// A diagnostic. Every kind carries the span that a renderer underlines.
#[derive(Debug, Clone, PartialEq, Eq)]
pub enum ParseError {
    /// The parser was handed something that is not its statement.
    UnknownState(String, Span),
    /// A token stands where this keyword is not accepted.
    UnexpectedKeyword(String, Span),
    /// Something else than what stands at the span was expected.
    Expected(String, Span),
    /// A token that the statement needs is not there.
    MissingPositional(String, Span),
    /// A command of this name was already declared in this scope.
    DuplicateCommandDef(Span),
    /// The working set is not in the state that the parser counts on.
    InternalError(String, Span),
    /// A delimiter is never closed.
    Unclosed(String, Span),
    /// No module of that name, and no file to read one from.
    ModuleNotFound(Span),
    /// No file at that path.
    FileNotFound(String, Span),
    /// The bytes are no UTF-8 text.
    NonUtf8(Span),
    /// The module does not export that name.
    ExportNotFound(Span),
    /// A value is none of those accepted: what is wrong, where, and what is accepted.
    IncorrectValue(String, Span, String),
    /// A failure told in words: a label and a message.
    LabeledError(String, String, Span),
}

/// A diagnostic with its texts as sequences of characters.
pub enum ErrorView {
    UnknownState(Seq<char>, Span),
    UnexpectedKeyword(Seq<char>, Span),
    Expected(Seq<char>, Span),
    MissingPositional(Seq<char>, Span),
    DuplicateCommandDef(Span),
    InternalError(Seq<char>, Span),
    Unclosed(Seq<char>, Span),
    ModuleNotFound(Span),
    FileNotFound(Seq<char>, Span),
    NonUtf8(Span),
    ExportNotFound(Span),
    IncorrectValue(Seq<char>, Span, Seq<char>),
    LabeledError(Seq<char>, Seq<char>, Span),
}

impl View for ParseError {
    type V = ErrorView;

    open spec fn view(&self) -> ErrorView {
        match *self {
            ParseError::UnknownState(text, span) => ErrorView::UnknownState(text@, span),
            ParseError::UnexpectedKeyword(text, span) => ErrorView::UnexpectedKeyword(text@, span),
            ParseError::Expected(text, span) => ErrorView::Expected(text@, span),
            ParseError::MissingPositional(text, span) => ErrorView::MissingPositional(text@, span),
            ParseError::DuplicateCommandDef(span) => ErrorView::DuplicateCommandDef(span),
            ParseError::InternalError(text, span) => ErrorView::InternalError(text@, span),
            ParseError::Unclosed(text, span) => ErrorView::Unclosed(text@, span),
            ParseError::ModuleNotFound(span) => ErrorView::ModuleNotFound(span),
            ParseError::FileNotFound(text, span) => ErrorView::FileNotFound(text@, span),
            ParseError::NonUtf8(span) => ErrorView::NonUtf8(span),
            ParseError::ExportNotFound(span) => ErrorView::ExportNotFound(span),
            ParseError::IncorrectValue(text, span, accepted) => ErrorView::IncorrectValue(
                text@,
                span,
                accepted@,
            ),
            ParseError::LabeledError(label, text, span) => ErrorView::LabeledError(
                label@,
                text@,
                span,
            ),
        }
    }
}

/// The error that a parser reports after it has seen `earlier` and then
/// `later`: the first of the two that is there.
pub open spec fn first_error(earlier: Option<ParseError>, later: Option<ParseError>) -> Option<
    ParseError,
> {
    if earlier is Some {
        earlier
    } else {
        later
    }
}

/// Keeps `earlier` if it holds an error, and takes `later` otherwise.
pub fn or_error(earlier: Option<ParseError>, later: Option<ParseError>) -> (kept: Option<
    ParseError,
>)
    ensures
        kept == first_error(earlier, later),
{
    match earlier {
        Some(error) => Some(error),
        None => later,
    }
}

/// What is reported after a run of steps of which step `i` produced
/// `produced[i]`, when each step keeps the error it was handed if there is one.
pub open spec fn reported(produced: Seq<Option<ParseError>>) -> Option<ParseError>
    decreases produced.len(),
{
    if produced.len() == 0 {
        None
    } else {
        first_error(reported(produced.drop_last()), produced.last())
    }
}

/// Whether `produced[i]` is the first error in `produced`.
pub open spec fn is_first_error_at(produced: Seq<Option<ParseError>>, i: int) -> bool {
    &&& 0 <= i < produced.len()
    &&& produced[i] is Some
    &&& forall|j: int| 0 <= j < i ==> produced[j] is None
}

/// Errors are sticky. However many steps a parser takes, what it reports
/// is the first error that any step produced, and there is no report only if no
/// step produced one.
pub proof fn lemma_first_error_is_reported(produced: Seq<Option<ParseError>>)
    ensures
        reported(produced) is None <==> forall|j: int|
            0 <= j < produced.len() ==> produced[j] is None,
        forall|i: int| is_first_error_at(produced, i) ==> reported(produced) == produced[i],
    decreases produced.len(),
{
    if produced.len() > 0 {
        let earlier = produced.drop_last();
        lemma_first_error_is_reported(earlier);
        assert forall|i: int| is_first_error_at(produced, i) implies reported(produced)
            == produced[i] by {
            if i < earlier.len() {
                assert(is_first_error_at(earlier, i));
            } else {
                assert(forall|j: int| 0 <= j < earlier.len() ==> earlier[j] == produced[j]);
            }
        }
        if reported(produced) is None {
            assert forall|j: int| 0 <= j < produced.len() implies produced[j] is None by {
                if j < earlier.len() {
                    assert(earlier[j] is None);
                }
            }
        }
        if forall|j: int| 0 <= j < produced.len() ==> produced[j] is None {
            assert forall|j: int| 0 <= j < earlier.len() implies earlier[j] is None by {
                assert(produced[j] is None);
            }
        }
    }
}

} // verus!

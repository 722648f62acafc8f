//! `register path [signature] --encoding name [--shell path]`: commands that
//! a plugin implements.

use vstd::prelude::*;
use crate::ast::{
    call_statement, garbage_statement, Call, Signature, SignatureView, Statement, Type,
};
use crate::bytes::{is_text, is_word, string_from_utf8, text_bytes, to_vec, word};
use crate::decl::{encoding_from_bytes, encoding_named, Decl, DeclView, Encoding};
use crate::error::{first_error, or_error, ErrorView, ParseError};
use crate::model::WorkingSetView;
use crate::request::{call_request, or_unknown_state, part, reports, token, token_at, CallRequest};
use crate::span::{covering, span, spans_to_vec, Span};
use crate::working_set::WorkingSet;

verus! {

/// A `register` statement whose call is to be parsed and checked by the
/// caller.
#[derive(Debug, PartialEq, Eq)]
pub struct RegisterCall {
    /// The tokens of the statement, `register` first.
    pub spans: Vec<Span>,
    /// The command `register`.
    pub decl_id: usize,
}

/// What the caller made of the call of `register`: the call, the error of
/// parsing it, and the error of checking it against the signature of the
/// command.
#[derive(Debug, PartialEq, Eq)]
pub struct CheckedCall {
    pub call: Call,
    pub parse_error: Option<ParseError>,
    pub check_error: Option<ParseError>,
}

/// A path for the caller to look up, and where it stands in the source.
#[derive(Debug, PartialEq, Eq)]
pub struct PathRequest {
    pub name: String,
    pub span: Span,
}

/// What the caller found at a path.
#[derive(Debug, PartialEq, Eq)]
pub enum PathProbe {
    /// The path leads nowhere.
    NotFound,
    /// The path leads to something that is no regular file: the path in full,
    /// as it is shown to the user.
    NotAFile { shown: String },
    /// The path leads to a regular file: the path in full.
    File { path: String },
}

/// A `register` statement with paths for the caller to look up and a
/// signature for the caller to decode.
#[derive(Debug, PartialEq, Eq)]
pub struct RegisterProbe {
    /// The tokens of the statement, `register` first.
    pub spans: Vec<Span>,
    /// The call as the caller parsed it.
    pub call: Call,
    /// The path of the plugin, or why there is none.
    pub plugin: Result<PathRequest, ParseError>,
    /// The encoding, or why there is none.
    pub encoding: Result<Encoding, ParseError>,
    /// The signature as JSON text, if the statement holds one.
    pub signature: Option<Vec<u8>>,
    /// The path of the shell, if the statement holds one, or why it cannot
    /// be used.
    pub shell: Option<Result<PathRequest, ParseError>>,
}

/// What the caller found for a `register` statement. An answer that is not
/// there where the state asked for one counts as a path that leads nowhere,
/// and as a signature that cannot be decoded.
#[derive(Debug, PartialEq, Eq)]
pub struct Probed {
    /// What is at the path of the plugin.
    pub plugin: Option<PathProbe>,
    /// What is at the path of the shell.
    pub shell: Option<PathProbe>,
    /// The signature that the JSON text decodes to, if it decodes to one.
    pub signature: Option<Signature>,
}

/// A `register` statement whose plugin the caller is to ask for its
/// signatures.
#[derive(Debug, PartialEq, Eq)]
pub struct RegisterFetch {
    /// The tokens of the statement, `register` first.
    pub spans: Vec<Span>,
    /// The call as the caller parsed it.
    pub call: Call,
    /// The path of the plugin.
    pub path: String,
    /// The encoding to speak to the plugin in.
    pub encoding: Encoding,
    /// The path of the shell to run the plugin with, if any.
    pub shell: Option<String>,
}

/// How far the parsing of a `register` statement has come.
#[derive(Debug, PartialEq, Eq)]
pub enum RegisterProgress {
    /// The caller is to parse the call that the state asks for, and to check
    /// it against the signature of the command `register`.
    ParseCall(RegisterCall),
    /// The caller is to look up the paths and to decode the signature that
    /// the state holds.
    Probe(RegisterProbe),
    /// The caller is to ask the plugin for its signatures.
    Fetch(RegisterFetch),
    /// The statement and the error met.
    Done(Statement, Option<ParseError>),
}

impl RegisterProgress {
    /// Whether this is the answer to a statement that is given up: a garbage
    /// statement over all of `spans`, and `error`.
    pub open spec fn is_given_up(self, spans: Seq<Span>, error: ErrorView) -> bool {
        &&& self matches RegisterProgress::Done(statement, reported)
        &&& statement.is_garbage(covering(spans))
        &&& reports(reported, None, error)
    }

    /// Whether this ends the statement with `call`, as an expression of type
    /// `ty`.
    pub open spec fn is_ended(self, spans: Seq<Span>, call: Call, ty: Type) -> bool {
        &&& self matches RegisterProgress::Done(statement, _)
        &&& statement.is_call(covering(spans), ty)
        &&& statement.call() == call
    }

    /// The error of a parser that is done.
    pub open spec fn reported(self) -> Option<ParseError> {
        match self {
            RegisterProgress::Done(_, reported) => reported,
            _ => None,
        }
    }
}

/// Whether `progress` is how `parse_register` answers the tokens `spans` in
/// `working_set`.
pub open spec fn begins_register(
    working_set: WorkingSetView,
    spans: Seq<Span>,
    progress: RegisterProgress,
) -> bool {
    if spans.len() == 0 || working_set.span_contents(spans[0]) != word("register") {
        progress.is_given_up(
            spans,
            ErrorView::UnknownState(
                "internal error: Wrong call name for parse plugin function"@,
                covering(spans),
            ),
        )
    } else {
        match working_set.find_decl(word("register")) {
            Some(decl_id) => {
                &&& progress matches RegisterProgress::ParseCall(state)
                &&& state.spans@ == spans
                &&& state.decl_id == decl_id
            },
            None => progress.is_given_up(
                spans,
                ErrorView::UnknownState(
                    "internal error: Register declaration not found"@,
                    covering(spans),
                ),
            ),
        }
    }
}

/// Parses `register path [signature] --encoding name [--shell path]`.
///
/// A first token other than `register`, or a working set that does not know
/// the command `register`, gives a garbage statement and the error of an
/// unknown state. Otherwise the caller is to parse and check the statement as
/// a call of `register`. The working set is not changed.
pub fn parse_register(working_set: &mut WorkingSet, spans: &[Span]) -> (progress: RegisterProgress)
    ensures
        final(working_set)@ == old(working_set)@,
        begins_register(old(working_set)@, spans@, progress),
{
    if spans.len() == 0 || !is_word(working_set.get_span_contents(spans[0]), "register") {
        return RegisterProgress::Done(
            garbage_statement(spans),
            or_unknown_state(
                None,
                "internal error: Wrong call name for parse plugin function",
                span(spans),
            ),
        );
    }
    match working_set.find_decl("register".as_bytes()) {
        Some(decl_id) => RegisterProgress::ParseCall(
            RegisterCall { spans: spans_to_vec(spans), decl_id },
        ),
        None => RegisterProgress::Done(
            garbage_statement(spans),
            or_unknown_state(None, "internal error: Register declaration not found", span(spans)),
        ),
    }
}

/// Whether `request` asks for the path whose text stands at `at`, or
/// carries the error that the text is no UTF-8.
pub open spec fn is_path_request(
    working_set: WorkingSetView,
    at: Span,
    request: Result<PathRequest, ParseError>,
) -> bool {
    if is_text(working_set.span_contents(at)) {
        &&& request matches Ok(asked)
        &&& text_bytes(asked.name@) == working_set.span_contents(at)
        &&& asked.span == at
    } else {
        request == Err::<PathRequest, ParseError>(ParseError::NonUtf8(at))
    }
}

fn path_request(working_set: &WorkingSet, at: Span) -> (request: Result<PathRequest, ParseError>)
    ensures
        is_path_request(working_set@, at, request),
{
    match string_from_utf8(to_vec(working_set.get_span_contents(at))) {
        Some(name) => Ok(PathRequest { name, span: at }),
        None => Err(ParseError::NonUtf8(at)),
    }
}

/// The first positional argument of a call, if there is one: where it stands.
pub open spec fn first_argument(call: Call) -> Option<Span> {
    if call.positional@.len() > 0 {
        Some(call.positional@[0].span)
    } else {
        None
    }
}

/// The second positional argument of a call, if there is one: where it
/// stands.
pub open spec fn second_argument(call: Call) -> Option<Span> {
    if call.positional@.len() > 1 {
        Some(call.positional@[1].span)
    } else {
        None
    }
}

/// Whether `plugin` is what a `register` statement makes of the first
/// argument of its call: a path to look up; the error that its text is no
/// UTF-8; or, without a first argument, the error of a file not found, with
/// no name, at the call.
pub open spec fn is_plugin_request(
    working_set: WorkingSetView,
    call: Call,
    outer: Span,
    plugin: Result<PathRequest, ParseError>,
) -> bool {
    match first_argument(call) {
        Some(at) => is_path_request(working_set, at, plugin),
        None => plugin matches Err(error) && error@ == ErrorView::FileNotFound(
            Seq::empty(),
            outer,
        ),
    }
}

/// Whether `encoding` is what a `register` statement makes of the flag
/// `encoding` of its call: the encoding that the text of the flag's value
/// names; or the error of an incorrect value, at the value, or at the call
/// where the flag has none.
pub open spec fn is_encoding(
    working_set: WorkingSetView,
    call: Call,
    outer: Span,
    encoding: Result<Encoding, ParseError>,
) -> bool {
    let at = match call.spec_flag_span("encoding"@) {
        Some(span) => span,
        None => outer,
    };
    let named = match call.spec_flag_span("encoding"@) {
        Some(span) => encoding_named(working_set.span_contents(span)),
        None => None,
    };
    match named {
        Some(found) => encoding == Ok::<Encoding, ParseError>(found),
        None => encoding matches Err(error) && error@ == ErrorView::IncorrectValue(
            "wrong encoding"@,
            at,
            "Encodings available: capnp and json"@,
        ),
    }
}

impl RegisterCall {
    /// The call that the caller is to parse and check: the tokens after
    /// `register` as the arguments of the command `register`.
    pub fn request(&self) -> (request: CallRequest)
        ensures
            request.head == token_at(self.spans@, 0),
            request.arguments@ == part(self.spans@, 1, self.spans@.len() as int),
            request.decl_id == self.decl_id,
    {
        call_request(self.spans.as_slice(), self.decl_id)
    }

    /// Whether `progress` is how the statement goes on in `working_set` with
    /// the call that the caller parsed and checked.
    ///
    /// With an error, of which that of the parsing goes first, or with the
    /// flag `help`, the statement is the call, with the error. Otherwise the
    /// paths of the plugin and of the shell, the encoding and the signature
    /// are taken from the call, and the caller is asked to look up the paths
    /// and to decode the signature.
    pub open spec fn steps(
        self,
        working_set: WorkingSetView,
        checked: CheckedCall,
        progress: RegisterProgress,
    ) -> bool {
        let error = first_error(checked.parse_error, checked.check_error);
        let outer = covering(self.spans@);
        if error is Some || checked.call.spec_has_flag("help"@) {
            &&& progress.is_ended(self.spans@, checked.call, Type::Unknown)
            &&& progress.reported() == error
        } else {
            &&& progress matches RegisterProgress::Probe(probe)
            &&& probe.spans == self.spans
            &&& probe.call == checked.call
            &&& is_plugin_request(working_set, checked.call, outer, probe.plugin)
            &&& is_encoding(working_set, checked.call, outer, probe.encoding)
            &&& match second_argument(checked.call) {
                Some(at) => probe.signature matches Some(text) && text@
                    == working_set.span_contents(at),
                None => probe.signature is None,
            }
            &&& match checked.call.spec_flag_span("shell"@) {
                Some(at) => probe.shell matches Some(request) && is_path_request(
                    working_set,
                    at,
                    request,
                ),
                None => probe.shell is None,
            }
        }
    }

    /// Goes on with the call that the caller parsed and checked. The working
    /// set is not changed.
    pub fn resume(self, working_set: &mut WorkingSet, checked: CheckedCall) -> (progress:
        RegisterProgress)
        ensures
            final(working_set)@ == old(working_set)@,
            self.steps(old(working_set)@, checked, progress),
    {
        let error = or_error(checked.parse_error, checked.check_error);
        let outer = span(self.spans.as_slice());
        let call = checked.call;
        if error.is_some() || call.has_flag("help") {
            return RegisterProgress::Done(call_statement(call, outer, Type::Unknown), error);
        }
        let plugin = if call.positional.len() > 0 {
            path_request(working_set, call.positional[0].span)
        } else {
            Err(ParseError::FileNotFound(String::new(), outer))
        };
        let encoding = match call.flag_span("encoding") {
            Some(at) => match encoding_from_bytes(working_set.get_span_contents(at)) {
                Some(found) => Ok(found),
                None => Err(
                    ParseError::IncorrectValue(
                        "wrong encoding".to_owned(),
                        at,
                        "Encodings available: capnp and json".to_owned(),
                    ),
                ),
            },
            None => Err(
                ParseError::IncorrectValue(
                    "wrong encoding".to_owned(),
                    outer,
                    "Encodings available: capnp and json".to_owned(),
                ),
            ),
        };
        let signature = if call.positional.len() > 1 {
            Some(to_vec(working_set.get_span_contents(call.positional[1].span)))
        } else {
            None
        };
        let shell = match call.flag_span("shell") {
            Some(at) => Some(path_request(working_set, at)),
            None => None,
        };
        RegisterProgress::Probe(
            RegisterProbe { spans: self.spans, call, plugin, encoding, signature, shell },
        )
    }
}

/// Whether `located` is what a path request comes to with what the caller
/// found: the path of a regular file, or the error of a file not found, with
/// the name as it was asked for where the path leads nowhere, and the path as
/// it is shown where it leads to no regular file.
pub open spec fn is_located(
    request: Result<PathRequest, ParseError>,
    probe: Option<PathProbe>,
    located: Result<String, ParseError>,
) -> bool {
    match request {
        Err(error) => located == Err::<String, ParseError>(error),
        Ok(asked) => match probe {
            Some(PathProbe::File { path }) => located == Ok::<String, ParseError>(path),
            Some(PathProbe::NotAFile { shown }) => located matches Err(error) && error@
                == ErrorView::FileNotFound(shown@, asked.span),
            _ => located matches Err(error) && error@ == ErrorView::FileNotFound(
                asked.name@,
                asked.span,
            ),
        },
    }
}

/// Whether `located` is what the request for the shell, if there is one,
/// comes to with what the caller found.
pub open spec fn is_shell_located(
    request: Option<Result<PathRequest, ParseError>>,
    probe: Option<PathProbe>,
    located: Option<Result<String, ParseError>>,
) -> bool {
    match request {
        Some(asked) => located matches Some(found) && is_located(asked, probe, found),
        None => located is None,
    }
}

fn locate(request: Result<PathRequest, ParseError>, probe: Option<PathProbe>) -> (located: Result<
    String,
    ParseError,
>)
    ensures
        is_located(request, probe, located),
{
    match request {
        Err(error) => Err(error),
        Ok(asked) => match probe {
            Some(PathProbe::File { path }) => Ok(path),
            Some(PathProbe::NotAFile { shown }) => Err(ParseError::FileNotFound(shown, asked.span)),
            _ => Err(ParseError::FileNotFound(asked.name, asked.span)),
        },
    }
}

/// The declaration of a command of a plugin.
pub open spec fn plugin_decl(
    path: Seq<char>,
    signature: SignatureView,
    encoding: Encoding,
    shell: Option<Seq<char>>,
) -> DeclView {
    DeclView::Plugin { path, signature, encoding, shell }
}

/// A text, if there is one, as a sequence of characters.
pub open spec fn shell_text(shell: Option<String>) -> Option<Seq<char>> {
    match shell {
        Some(text) => Some(text@),
        None => None,
    }
}

/// The working set after a command of the plugin was declared for each of
/// the first `n` signatures, in order.
pub open spec fn with_plugins(
    working_set: WorkingSetView,
    path: Seq<char>,
    signatures: Seq<Signature>,
    encoding: Encoding,
    shell: Option<Seq<char>>,
    n: int,
) -> WorkingSetView
    decreases n,
{
    if n <= 0 || n > signatures.len() {
        working_set
    } else {
        with_plugins(working_set, path, signatures, encoding, shell, n - 1).add_decl(
            plugin_decl(path, signatures[n - 1]@, encoding, shell),
        )
    }
}

fn copy_text(text: &Option<String>) -> (same: Option<String>)
    ensures
        same == *text,
{
    match text {
        Some(t) => Some(t.clone()),
        None => None,
    }
}

impl RegisterProbe {
    /// Whether `progress`, with the working set `after`, is how the statement
    /// goes on from the working set `before` with what the caller found.
    ///
    /// A plugin that cannot be used, an encoding that is none, or a shell
    /// that cannot be used, in this order, ends the statement with its error;
    /// with a shell that cannot be used the statement has no type. Otherwise,
    /// with a signature in the statement, the command is declared, and the
    /// list of known plugins is marked as changed; a signature that does not
    /// decode is the error of the statement. Without a signature the caller
    /// is asked to fetch the signatures from the plugin.
    pub open spec fn steps(
        self,
        before: WorkingSetView,
        probed: Probed,
        after: WorkingSetView,
        progress: RegisterProgress,
    ) -> bool {
        exists|plugin: Result<String, ParseError>, shell: Option<Result<String, ParseError>>|
            {
                &&& #[trigger] is_located(self.plugin, probed.plugin, plugin)
                &&& #[trigger] is_shell_located(self.shell, probed.shell, shell)
                &&& self.follows(before, probed, plugin, shell, after, progress)
            }
    }

    /// How the statement goes on once the paths are located.
    pub open spec fn follows(
        self,
        before: WorkingSetView,
        probed: Probed,
        plugin: Result<String, ParseError>,
        shell: Option<Result<String, ParseError>>,
        after: WorkingSetView,
        progress: RegisterProgress,
    ) -> bool {
        let ty = if shell matches Some(Err(_)) {
            Type::Unknown
        } else {
            Type::Nothing
        };
        match (plugin, self.encoding, shell) {
            (Err(error), _, _) => {
                &&& after == before
                &&& progress.is_ended(self.spans@, self.call, ty)
                &&& progress.reported() == Some(error)
            },
            (Ok(_), Err(error), _) => {
                &&& after == before
                &&& progress.is_ended(self.spans@, self.call, ty)
                &&& progress.reported() == Some(error)
            },
            (Ok(_), Ok(_), Some(Err(error))) => {
                &&& after == before
                &&& progress.is_ended(self.spans@, self.call, Type::Unknown)
                &&& progress.reported() == Some(error)
            },
            (Ok(path), Ok(encoding), Some(Ok(shell_path))) => self.declares(
                before,
                probed,
                path,
                encoding,
                Some(shell_path),
                after,
                progress,
            ),
            (Ok(path), Ok(encoding), None) => self.declares(
                before,
                probed,
                path,
                encoding,
                None,
                after,
                progress,
            ),
        }
    }

    /// How the statement goes on once the plugin, the encoding and the shell
    /// are known to be good.
    pub open spec fn declares(
        self,
        before: WorkingSetView,
        probed: Probed,
        path: String,
        encoding: Encoding,
        shell: Option<String>,
        after: WorkingSetView,
        progress: RegisterProgress,
    ) -> bool {
        match self.signature {
            None => {
                &&& after == before
                &&& progress == RegisterProgress::Fetch(
                    RegisterFetch { spans: self.spans, call: self.call, path, encoding, shell },
                )
            },
            Some(_) => match probed.signature {
                Some(signature) => {
                    &&& after == before.add_decl(
                        plugin_decl(path@, signature@, encoding, shell_text(shell)),
                    ).mark_plugins_file_dirty()
                    &&& progress.is_ended(self.spans@, self.call, Type::Nothing)
                    &&& progress.reported() is None
                },
                None => {
                    &&& after == before
                    &&& progress.is_ended(self.spans@, self.call, Type::Nothing)
                    &&& reports(
                        progress.reported(),
                        None,
                        ErrorView::LabeledError(
                            "Signature deserialization error"@,
                            "unable to deserialize signature"@,
                            token_at(self.spans@, 0),
                        ),
                    )
                },
            },
        }
    }

    /// Goes on with what the caller found.
    pub fn resume(self, working_set: &mut WorkingSet, probed: Probed) -> (progress:
        RegisterProgress)
        ensures
            self.steps(old(working_set)@, probed, final(working_set)@, progress),
    {
        let outer = span(self.spans.as_slice());
        let first = token(self.spans.as_slice(), 0);
        let ghost me = self;
        let plugin = locate(self.plugin, probed.plugin);
        let shell = match self.shell {
            Some(request) => Some(locate(request, probed.shell)),
            None => None,
        };
        let ghost located_plugin = plugin;
        let ghost located_shell = shell;
        let progress = match (plugin, self.encoding, shell) {
            (Err(error), _, Some(Err(_))) => RegisterProgress::Done(
                call_statement(self.call, outer, Type::Unknown),
                Some(error),
            ),
            (Err(error), _, _) => RegisterProgress::Done(
                call_statement(self.call, outer, Type::Nothing),
                Some(error),
            ),
            (Ok(_), Err(error), Some(Err(_))) => RegisterProgress::Done(
                call_statement(self.call, outer, Type::Unknown),
                Some(error),
            ),
            (Ok(_), Err(error), _) => RegisterProgress::Done(
                call_statement(self.call, outer, Type::Nothing),
                Some(error),
            ),
            (Ok(_), Ok(_), Some(Err(error))) => RegisterProgress::Done(
                call_statement(self.call, outer, Type::Unknown),
                Some(error),
            ),
            (Ok(path), Ok(encoding), shell) => {
                let shell = match shell {
                    Some(Ok(shell_path)) => Some(shell_path),
                    _ => None,
                };
                match self.signature {
                    None => RegisterProgress::Fetch(
                        RegisterFetch { spans: self.spans, call: self.call, path, encoding, shell },
                    ),
                    Some(_) => match probed.signature {
                        Some(signature) => {
                            working_set.add_decl(Decl::Plugin { path, signature, encoding, shell });
                            working_set.mark_plugins_file_dirty();
                            RegisterProgress::Done(
                                call_statement(self.call, outer, Type::Nothing),
                                None,
                            )
                        },
                        None => RegisterProgress::Done(
                            call_statement(self.call, outer, Type::Nothing),
                            Some(
                                ParseError::LabeledError(
                                    "Signature deserialization error".to_owned(),
                                    "unable to deserialize signature".to_owned(),
                                    first,
                                ),
                            ),
                        ),
                    },
                }
            },
        };
        proof {
            assert(is_located(me.plugin, probed.plugin, located_plugin));
            assert(is_shell_located(me.shell, probed.shell, located_shell));
            assert(me.follows(
                old(working_set)@,
                probed,
                located_plugin,
                located_shell,
                working_set@,
                progress,
            ));
        }
        progress
    }
}

impl RegisterFetch {
    /// Whether `progress`, with the working set `after`, is how the statement
    /// ends in the working set `before` with what the plugin answered.
    ///
    /// Signatures: a command of the plugin is declared for each, in order,
    /// and the list of known plugins is marked as changed. A failure, told in
    /// words: the words are the error of the statement, at its first token.
    pub open spec fn steps(
        self,
        before: WorkingSetView,
        fetched: Result<Vec<Signature>, String>,
        after: WorkingSetView,
        progress: RegisterProgress,
    ) -> bool {
        &&& progress.is_ended(self.spans@, self.call, Type::Nothing)
        &&& match fetched {
            Ok(signatures) => {
                &&& after == with_plugins(
                    before,
                    self.path@,
                    signatures@,
                    self.encoding,
                    shell_text(self.shell),
                    signatures@.len() as int,
                ).mark_plugins_file_dirty()
                &&& progress.reported() is None
            },
            Err(text) => {
                &&& after == before
                &&& reports(
                    progress.reported(),
                    None,
                    ErrorView::LabeledError(
                        "Error getting signatures"@,
                        text@,
                        token_at(self.spans@, 0),
                    ),
                )
            },
        }
    }

    /// Ends the statement with what the plugin answered.
    pub fn resume(
        self,
        working_set: &mut WorkingSet,
        fetched: Result<Vec<Signature>, String>,
    ) -> (progress: RegisterProgress)
        ensures
            self.steps(old(working_set)@, fetched, final(working_set)@, progress),
    {
        let outer = span(self.spans.as_slice());
        let first = token(self.spans.as_slice(), 0);
        match fetched {
            Err(text) => RegisterProgress::Done(
                call_statement(self.call, outer, Type::Nothing),
                Some(ParseError::LabeledError("Error getting signatures".to_owned(), text, first)),
            ),
            Ok(signatures) => {
                let ghost all = signatures@;
                let mut rest = signatures;
                let mut done: usize = 0;
                let total: usize = rest.len();
                while rest.len() > 0
                    invariant
                        done + rest@.len() == total,
                        total == all.len(),
                        rest@ == all.subrange(done as int, total as int),
                        working_set@ == with_plugins(
                            old(working_set)@,
                            self.path@,
                            all,
                            self.encoding,
                            shell_text(self.shell),
                            done as int,
                        ),
                    decreases rest@.len(),
                {
                    let signature = rest.remove(0);
                    assert(signature == all[done as int]);
                    working_set.add_decl(
                        Decl::Plugin {
                            path: self.path.clone(),
                            signature,
                            encoding: self.encoding,
                            shell: copy_text(&self.shell),
                        },
                    );
                    done += 1;
                    assert(rest@ =~= all.subrange(done as int, total as int));
                }
                working_set.mark_plugins_file_dirty();
                RegisterProgress::Done(call_statement(self.call, outer, Type::Nothing), None)
            },
        }
    }
}

} // verus!

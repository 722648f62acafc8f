//! Declarations: what a command name stands for.

use vstd::prelude::*;
use crate::ast::{BlockId, Signature, SignatureView};
use crate::bytes::{to_vec, word};
use crate::span::Span;

verus! {

/// How the shell and a plugin encode what they send each other.
#[derive(Clone, Copy, Debug, PartialEq, Eq, Structural)]
pub enum Encoding {
    Capnp,
    Json,
}

/// The encoding that `bytes` names: `capnp` or `json`.
pub open spec fn encoding_named(bytes: Seq<u8>) -> Option<Encoding> {
    if bytes == word("capnp") {
        Some(Encoding::Capnp)
    } else if bytes == word("json") {
        Some(Encoding::Json)
    } else {
        None
    }
}

/// Calls `EncodingType::try_from_bytes` of the crate nu-plugin. Believed of it,
/// not proved: the bytes `capnp` and `json` name the two encodings, and no
/// other bytes name one.
#[verifier::external_body]
pub(crate) fn encoding_from_bytes(bytes: &[u8]) -> (encoding: Option<Encoding>)
    ensures
        encoding == encoding_named(bytes@),
{
    match nu_plugin::EncodingType::try_from_bytes(bytes) {
        Some(nu_plugin::EncodingType::Capnp(_)) => Some(Encoding::Capnp),
        Some(nu_plugin::EncodingType::Json(_)) => Some(Encoding::Json),
        None => None,
    }
}

/// The name of a command, as the bytes under which the symbol table knows it.
pub open spec fn name_bytes(name: Seq<char>) -> Seq<u8> {
    vstd::utf8::encode_utf8(name)
}

/// What a command name stands for.
#[derive(Debug, Clone, PartialEq, Eq)]
pub enum Decl {
    /// A command that the shell implements itself.
    Builtin { signature: Signature },
    /// A name that is reserved for a definition whose body is not parsed yet.
    Predecl { signature: Signature },
    /// A command that the user defined: its body is a block.
    Block { signature: Signature, block_id: BlockId },
    /// Another spelling for a sequence of tokens.
    Alias { name: String, replacement: Vec<Span> },
    /// A command that a plugin at `path` implements.
    Plugin { path: String, signature: Signature, encoding: Encoding, shell: Option<String> },
}

/// A declaration with its texts as sequences of characters.
pub enum DeclView {
    Builtin { signature: SignatureView },
    Predecl { signature: SignatureView },
    Block { signature: SignatureView, block_id: BlockId },
    Alias { name: Seq<char>, replacement: Seq<Span> },
    Plugin {
        path: Seq<char>,
        signature: SignatureView,
        encoding: Encoding,
        shell: Option<Seq<char>>,
    },
}

impl DeclView {
    /// The name of the command.
    pub open spec fn name(self) -> Seq<char> {
        match self {
            DeclView::Builtin { signature } => signature.name,
            DeclView::Predecl { signature } => signature.name,
            DeclView::Block { signature, .. } => signature.name,
            DeclView::Alias { name, .. } => name,
            DeclView::Plugin { signature, .. } => signature.name,
        }
    }

    /// The signature of the command, if it has one.
    pub open spec fn signature(self) -> Option<SignatureView> {
        match self {
            DeclView::Builtin { signature } => Some(signature),
            DeclView::Predecl { signature } => Some(signature),
            DeclView::Block { signature, .. } => Some(signature),
            DeclView::Alias { .. } => None,
            DeclView::Plugin { signature, .. } => Some(signature),
        }
    }
}

impl View for Decl {
    type V = DeclView;

    open spec fn view(&self) -> DeclView {
        match *self {
            Decl::Builtin { signature } => DeclView::Builtin { signature: signature@ },
            Decl::Predecl { signature } => DeclView::Predecl { signature: signature@ },
            Decl::Block { signature, block_id } => DeclView::Block {
                signature: signature@,
                block_id,
            },
            Decl::Alias { name, replacement } => DeclView::Alias {
                name: name@,
                replacement: replacement@,
            },
            Decl::Plugin { path, signature, encoding, shell } => DeclView::Plugin {
                path: path@,
                signature: signature@,
                encoding,
                shell: match shell {
                    Some(text) => Some(text@),
                    None => None,
                },
            },
        }
    }
}

impl Decl {
    /// The name of the command, as bytes.
    pub fn name_to_vec(&self) -> (name: Vec<u8>)
        ensures
            name@ == name_bytes(self@.name()),
    {
        match self {
            Decl::Builtin { signature } => to_vec(signature.name.as_str().as_bytes()),
            Decl::Predecl { signature } => to_vec(signature.name.as_str().as_bytes()),
            Decl::Block { signature, .. } => to_vec(signature.name.as_str().as_bytes()),
            Decl::Alias { name, .. } => to_vec(name.as_str().as_bytes()),
            Decl::Plugin { signature, .. } => to_vec(signature.name.as_str().as_bytes()),
        }
    }
}

/// Reserves the name of `signature` for a definition that follows.
pub fn predeclare(signature: Signature) -> (decl: Decl)
    ensures
        decl == (Decl::Predecl { signature }),
{
    Decl::Predecl { signature }
}

/// The command with `signature` whose body is the block `block_id`.
pub fn into_block_command(signature: Signature, block_id: BlockId) -> (decl: Decl)
    ensures
        decl == (Decl::Block { signature, block_id }),
{
    Decl::Block { signature, block_id }
}

} // verus!

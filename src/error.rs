//! What can go wrong with a request, and what a fault reports.
use vstd::prelude::*;

use crate::json::{
    insert_member, no_members, null_value, object_value, opt_text_member, read_opt_text,
    string_value, tree_of, JsonTree,
};
use crate::query::opt_text;
use crate::response::{Meta, MetaView};

verus! {

/// `url::ParseError`, why a text is not a URL.
#[verifier::external_type_specification]
#[verifier::external_body]
pub struct ExParseError(url::ParseError);

/// Why a response body could not be read as the expected document.
#[derive(Debug)]
pub enum CodecError {
    /// The body is not JSON, or a decoder of the caller's refused it; the
    /// diagnostic says where.
    Json(serde_json::Error),
    /// The body is JSON, but lacks a required member or has one of the
    /// wrong type; the text names the document that was expected.
    Shape(String),
}

/// Why a request's URL was refused.
#[derive(Debug)]
pub enum UriError {
    /// The text does not parse as a URL.
    Parse(url::ParseError),
    /// The HTTP transport refused the URL; its message.
    Rejected(String),
}

/// The error of a request.
#[derive(Debug)]
pub enum ErrorKind {
    /// The body could not be decoded.
    Codec(CodecError),
    /// The HTTP transport failed; its message.
    Http(String),
    /// Reading the response body failed; its message.
    IO(String),
    /// The request URL was refused.
    URI(UriError),
    /// The service answered with a status outside 2xx and this fault.
    Fault { code: u16, error: ClientError },
}

/// What a fault reports: the detail and the kind of error that the
/// envelope's `meta` gives.
#[derive(Clone, Debug, PartialEq)]
pub struct ClientError {
    /// What went wrong, for people to read.
    pub message: Option<String>,
    /// The kind of error, such as `param_error`.
    pub error_type: Option<String>,
}

/// The abstract value of [`ClientError`].
pub struct ClientErrorView {
    pub message: Option<Seq<char>>,
    pub error_type: Option<Seq<char>>,
}

impl View for ClientError {
    type V = ClientErrorView;

    open spec fn view(&self) -> ClientErrorView {
        ClientErrorView {
            message: opt_text(self.message),
            error_type: opt_text(self.error_type),
        }
    }
}

/// The [`ClientError`] a document describes, if it describes one: an object with
/// each required member present and each member of the expected type.
pub open spec fn client_error_from_json(j: JsonTree) -> Option<ClientErrorView> {
    if j is Object {
        match (
            opt_text_member(j, "errorDetail"@),
            opt_text_member(j, "errorType"@),
        ) {
            (Some(message), Some(error_type)) => Some(ClientErrorView { message, error_type }),
            _ => None,
        }
    } else {
        None
    }
}

/// The document of a [`ClientError`]: an object with a member for each field,
/// null where an optional field is absent.
pub open spec fn client_error_to_json(t: ClientErrorView) -> JsonTree {
    JsonTree::Object(
        no_members()
            .insert("errorDetail"@, match t.message {
                Some(s) => JsonTree::Str(s),
                None => JsonTree::Null,
            })
            .insert("errorType"@, match t.error_type {
                Some(s) => JsonTree::Str(s),
                None => JsonTree::Null,
            })
    )
}

/// A [`ClientError`] reads back from its own document unchanged, optional fields
/// included.
pub proof fn client_error_round_trip(t: ClientErrorView)
    ensures
        client_error_from_json(client_error_to_json(t)) == Some(t),
{
    reveal_strlit("errorDetail");
    reveal_strlit("errorType");
    // The member names differ, so each lookup finds its own member.
    assert("errorDetail"@.len() != "errorType"@.len());
}

impl ClientError {
    /// Reads a [`ClientError`] from a document; `None` when the document does not
    /// describe one.
    pub fn from_json(v: &serde_json::Value) -> (r: Option<ClientError>)
        ensures
            match r {
                Some(t) => client_error_from_json(tree_of(*v)) == Some(t@),
                None => client_error_from_json(tree_of(*v)) is None,
            },
    {
        if !v.is_object() {
            return None;
        }
        let message = match read_opt_text(v, "errorDetail") {
            Some(x) => x,
            None => return None,
        };
        let error_type = match read_opt_text(v, "errorType") {
            Some(x) => x,
            None => return None,
        };
        let r = ClientError { message, error_type };
        assert(r@ =~= client_error_from_json(tree_of(*v))->Some_0);
        Some(r)
    }

    /// The document of this value, as [`client_error_to_json`] describes it.
    pub fn to_json(&self) -> (r: serde_json::Value)
        ensures
            tree_of(r) == client_error_to_json(self@),
    {
        let mut m = serde_json::Map::new();
        let message = match &self.message {
            Some(s) => string_value(s.clone()),
            None => null_value(),
        };
        insert_member(&mut m, String::from_str("errorDetail"), message);
        let error_type = match &self.error_type {
            Some(s) => string_value(s.clone()),
            None => null_value(),
        };
        insert_member(&mut m, String::from_str("errorType"), error_type);
        object_value(m)
    }
}


/// The [`ClientError`] of a fault whose envelope holds `meta`.
pub open spec fn fault_error(meta: MetaView) -> ClientErrorView {
    ClientErrorView { message: meta.error_detail, error_type: meta.error_type }
}

impl ClientError {
    /// The error that a fault's `meta` reports.
    pub fn from_meta(meta: &Meta) -> (r: ClientError)
        ensures
            r@ == fault_error(meta@),
    {
        ClientError { message: meta.error_detail.clone(), error_type: meta.error_type.clone() }
    }
}

} // verus!

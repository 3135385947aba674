//! The envelope of every response, and the split of a response into a
//! payload or a fault by its status.
use vstd::prelude::*;

use crate::json::{
    field, insert_member, member, no_members, null_value, number_value, object_value,
    opt_text_member, read_opt_text, read_text, read_u16, string_value, text_member, tree_of,
    u16_member, JsonTree,
};
use crate::error::{fault_error, ClientError, CodecError, ErrorKind};
use crate::json::{parse_value, parsed_tree};
use crate::query::opt_text;
use crate::venue::{
    tips_response_round_trip, tips_response_to_json, venue_hours_response_round_trip,
    venue_hours_response_to_json, tips_response_from_json, venue_hours_response_from_json, TipsResponse, TipsResponseView,
    VenueHoursResponse, VenueHoursResponseView,
};

verus! {

/// The status part of every response.
#[derive(Clone, Debug, PartialEq)]
pub struct Meta {
    /// The HTTP status code.
    pub code: u16,
    /// The service's id of the request.
    pub request_id: String,
    /// The kind of error, when there is one.
    pub error_type: Option<String>,
    /// What went wrong, when something did.
    pub error_detail: Option<String>,
}

/// The abstract value of [`Meta`].
pub struct MetaView {
    pub code: u16,
    pub request_id: Seq<char>,
    pub error_type: Option<Seq<char>>,
    pub error_detail: Option<Seq<char>>,
}

impl View for Meta {
    type V = MetaView;

    open spec fn view(&self) -> MetaView {
        MetaView {
            code: self.code,
            request_id: self.request_id@,
            error_type: opt_text(self.error_type),
            error_detail: opt_text(self.error_detail),
        }
    }
}

/// The [`Meta`] a document describes, if it describes one: an object with
/// each required member present and each member of the expected type.
pub open spec fn meta_from_json(j: JsonTree) -> Option<MetaView> {
    if j is Object {
        match (
            u16_member(j, "code"@),
            text_member(j, "requestId"@),
            opt_text_member(j, "errorType"@),
            opt_text_member(j, "errorDetail"@),
        ) {
            (Some(code), Some(request_id), Some(error_type), Some(error_detail)) => Some(MetaView { code, request_id, error_type, error_detail }),
            _ => None,
        }
    } else {
        None
    }
}

/// The document of a [`Meta`]: an object with a member for each field,
/// null where an optional field is absent.
pub open spec fn meta_to_json(t: MetaView) -> JsonTree {
    JsonTree::Object(
        no_members()
            .insert("code"@, JsonTree::Int(t.code as int))
            .insert("requestId"@, JsonTree::Str(t.request_id))
            .insert("errorType"@, match t.error_type {
                Some(s) => JsonTree::Str(s),
                None => JsonTree::Null,
            })
            .insert("errorDetail"@, match t.error_detail {
                Some(s) => JsonTree::Str(s),
                None => JsonTree::Null,
            })
    )
}

/// A [`Meta`] reads back from its own document unchanged, optional fields
/// included.
pub proof fn meta_round_trip(t: MetaView)
    ensures
        meta_from_json(meta_to_json(t)) == Some(t),
{
    reveal_strlit("code");
    reveal_strlit("requestId");
    reveal_strlit("errorType");
    reveal_strlit("errorDetail");
    // The member names differ, so each lookup finds its own member.
    assert("code"@.len() != "requestId"@.len());
    assert("code"@.len() != "errorType"@.len());
    assert("code"@.len() != "errorDetail"@.len());
    assert("requestId"@[0] != "errorType"@[0]);
    assert("requestId"@.len() != "errorDetail"@.len());
    assert("errorType"@.len() != "errorDetail"@.len());
}

impl Meta {
    /// Reads a [`Meta`] from a document; `None` when the document does not
    /// describe one.
    pub fn from_json(v: &serde_json::Value) -> (r: Option<Meta>)
        ensures
            match r {
                Some(t) => meta_from_json(tree_of(*v)) == Some(t@),
                None => meta_from_json(tree_of(*v)) is None,
            },
    {
        if !v.is_object() {
            return None;
        }
        let code = match read_u16(v, "code") {
            Some(x) => x,
            None => return None,
        };
        let request_id = match read_text(v, "requestId") {
            Some(x) => x,
            None => return None,
        };
        let error_type = match read_opt_text(v, "errorType") {
            Some(x) => x,
            None => return None,
        };
        let error_detail = match read_opt_text(v, "errorDetail") {
            Some(x) => x,
            None => return None,
        };
        let r = Meta { code, request_id, error_type, error_detail };
        assert(r@ =~= meta_from_json(tree_of(*v))->Some_0);
        Some(r)
    }

    /// The document of this value, as [`meta_to_json`] describes it.
    pub fn to_json(&self) -> (r: serde_json::Value)
        ensures
            tree_of(r) == meta_to_json(self@),
    {
        let mut m = serde_json::Map::new();
        let code = number_value(self.code as u64);
        insert_member(&mut m, String::from_str("code"), code);
        let request_id = string_value(self.request_id.clone());
        insert_member(&mut m, String::from_str("requestId"), request_id);
        let error_type = match &self.error_type {
            Some(s) => string_value(s.clone()),
            None => null_value(),
        };
        insert_member(&mut m, String::from_str("errorType"), error_type);
        let error_detail = match &self.error_detail {
            Some(s) => string_value(s.clone()),
            None => null_value(),
        };
        insert_member(&mut m, String::from_str("errorDetail"), error_detail);
        object_value(m)
    }
}


/// A response: its status part and its payload.
#[derive(Clone, Debug, PartialEq)]
pub struct Response<T> {
    pub meta: Meta,
    pub response: T,
}

/// The abstract value of a [`Response`].
pub struct ResponseView<V> {
    pub meta: MetaView,
    pub response: V,
}

impl<T: View> View for Response<T> {
    type V = ResponseView<T::V>;

    open spec fn view(&self) -> ResponseView<T::V> {
        ResponseView { meta: self.meta@, response: self.response@ }
    }
}

/// The [`Meta`] of an envelope: the `meta` member of an object, when it
/// reads as one.
pub open spec fn envelope_meta(j: JsonTree) -> Option<MetaView> {
    if j is Object {
        match field(j, "meta"@) {
            Some(x) => meta_from_json(x),
            None => None,
        }
    } else {
        None
    }
}

/// The envelope a document describes, given what its `response` member
/// reads as.
pub open spec fn envelope_of<V>(j: JsonTree, payload: Option<V>) -> Option<ResponseView<V>> {
    match (envelope_meta(j), payload) {
        (Some(meta), Some(response)) => Some(ResponseView { meta, response }),
        _ => None,
    }
}

/// The envelope of a venue tips response that a document describes.
pub open spec fn tips_envelope_from_json(j: JsonTree) -> Option<ResponseView<TipsResponseView>> {
    envelope_of(
        j,
        match field(j, "response"@) {
            Some(x) => tips_response_from_json(x),
            None => None,
        },
    )
}

/// The envelope of a venue hours response that a document describes.
pub open spec fn hours_envelope_from_json(j: JsonTree) -> Option<ResponseView<VenueHoursResponseView>> {
    envelope_of(
        j,
        match field(j, "response"@) {
            Some(x) => venue_hours_response_from_json(x),
            None => None,
        },
    )
}

/// Reads the [`Meta`] of an envelope.
pub fn read_envelope_meta(v: &serde_json::Value) -> (r: Option<Meta>)
    ensures
        match r {
            Some(m) => envelope_meta(tree_of(*v)) == Some(m@),
            None => envelope_meta(tree_of(*v)) is None,
        },
{
    if !v.is_object() {
        return None;
    }
    match member(v, "meta") {
        Some(x) => Meta::from_json(x),
        None => None,
    }
}

/// The document of an envelope: its `meta` and its payload's document under
/// `response`.
pub open spec fn envelope_json(meta: MetaView, payload: JsonTree) -> JsonTree {
    JsonTree::Object(no_members().insert("meta"@, meta_to_json(meta)).insert("response"@, payload))
}

/// An envelope reads back from its document: the same `meta`, and the
/// payload as its own document reads.
pub proof fn envelope_round_trip<V>(meta: MetaView, payload: JsonTree, read: Option<V>)
    ensures
        envelope_of(envelope_json(meta, payload), read) == match read {
            Some(p) => Some(ResponseView { meta, response: p }),
            None => None,
        },
        field(envelope_json(meta, payload), "response"@) == Some(payload),
{
    reveal_strlit("meta");
    reveal_strlit("response");
    assert("meta"@.len() != "response"@.len());
    meta_round_trip(meta);
}

/// A venue tips envelope reads back from its own document unchanged.
pub proof fn tips_envelope_round_trip(r: ResponseView<TipsResponseView>)
    ensures
        tips_envelope_from_json(envelope_json(r.meta, tips_response_to_json(r.response))) == Some(r),
{
    tips_response_round_trip(r.response);
    envelope_round_trip(r.meta, tips_response_to_json(r.response), Some(r.response));
}

/// A venue hours envelope reads back from its own document unchanged.
pub proof fn hours_envelope_round_trip(r: ResponseView<VenueHoursResponseView>)
    ensures
        hours_envelope_from_json(envelope_json(r.meta, venue_hours_response_to_json(r.response))) == Some(r),
{
    venue_hours_response_round_trip(r.response);
    envelope_round_trip(r.meta, venue_hours_response_to_json(r.response), Some(r.response));
}

fn envelope_value(meta: &Meta, payload: serde_json::Value) -> (r: serde_json::Value)
    ensures
        tree_of(r) == envelope_json(meta@, tree_of(payload)),
{
    let mut m = serde_json::Map::new();
    insert_member(&mut m, String::from_str("meta"), meta.to_json());
    insert_member(&mut m, String::from_str("response"), payload);
    object_value(m)
}

impl Response<TipsResponse> {
    /// The document of this envelope.
    pub fn to_json(&self) -> (r: serde_json::Value)
        ensures
            tree_of(r) == envelope_json(self.meta@, tips_response_to_json(self.response@)),
    {
        envelope_value(&self.meta, self.response.to_json())
    }

    /// Reads the envelope of a venue tips response from a document.
    pub fn from_json(v: &serde_json::Value) -> (r: Option<Response<TipsResponse>>)
        ensures
            match r {
                Some(t) => tips_envelope_from_json(tree_of(*v)) == Some(t@),
                None => tips_envelope_from_json(tree_of(*v)) is None,
            },
    {
        let meta = match read_envelope_meta(v) {
            Some(m) => m,
            None => return None,
        };
        let response = match member(v, "response") {
            Some(x) => match TipsResponse::from_json(x) {
                Some(t) => t,
                None => return None,
            },
            None => return None,
        };
        Some(Response { meta, response })
    }
}

impl Response<VenueHoursResponse> {
    /// The document of this envelope.
    pub fn to_json(&self) -> (r: serde_json::Value)
        ensures
            tree_of(r) == envelope_json(self.meta@, venue_hours_response_to_json(self.response@)),
    {
        envelope_value(&self.meta, self.response.to_json())
    }

    /// Reads the envelope of a venue hours response from a document.
    pub fn from_json(v: &serde_json::Value) -> (r: Option<Response<VenueHoursResponse>>)
        ensures
            match r {
                Some(t) => hours_envelope_from_json(tree_of(*v)) == Some(t@),
                None => hours_envelope_from_json(tree_of(*v)) is None,
            },
    {
        let meta = match read_envelope_meta(v) {
            Some(m) => m,
            None => return None,
        };
        let response = match member(v, "response") {
            Some(x) => match VenueHoursResponse::from_json(x) {
                Some(t) => t,
                None => return None,
            },
            None => return None,
        };
        Some(Response { meta, response })
    }
}

/// A status in the 2xx class.
pub open spec fn is_success(status: u16) -> bool {
    200 <= status < 300
}

/// The error that a response outside 2xx yields: a fault with the status
/// and what the envelope's `meta` reports, when the body is an envelope
/// with a `meta`; else the error of reading the body.
pub open spec fn fault_of(status: u16, body: Seq<u8>, e: ErrorKind) -> bool {
    match parsed_tree(body) {
        None => e is Codec && e->Codec_0 is Json,
        Some(j) => match envelope_meta(j) {
            Some(meta) => match e {
                ErrorKind::Fault { code, error } => code == status && error@ == fault_error(meta),
                _ => false,
            },
            None => e is Codec && e->Codec_0 is Shape,
        },
    }
}

/// What a response with this status and body yields when its payload is
/// read by `envelope`: in 2xx, the envelope, or a codec error when the
/// body is not JSON or not the envelope; outside 2xx, the fault.
pub open spec fn outcome_of<T: View>(
    status: u16,
    body: Seq<u8>,
    envelope: spec_fn(JsonTree) -> Option<ResponseView<T::V>>,
    r: Result<Response<T>, ErrorKind>,
) -> bool {
    if is_success(status) {
        match parsed_tree(body) {
            None => r is Err && r->Err_0 is Codec && r->Err_0->Codec_0 is Json,
            Some(j) => match envelope(j) {
                Some(env) => r is Ok && r->Ok_0@ == env,
                None => r is Err && r->Err_0 is Codec && r->Err_0->Codec_0 is Shape,
            },
        }
    } else {
        r is Err && fault_of(status, body, r->Err_0)
    }
}

/// Splits a response by its status. In 2xx the body is parsed as JSON; a
/// body that is not JSON is a codec error. Outside 2xx the body is read as
/// an envelope, and its `meta` becomes a fault carrying the status; when the
/// body is not an envelope with a `meta`, the error of reading it is
/// returned instead.
pub fn response_document(status: u16, body: &[u8]) -> (r: Result<serde_json::Value, ErrorKind>)
    ensures
        is_success(status) ==> match r {
            Ok(v) => parsed_tree(body@) == Some(tree_of(v)),
            Err(e) => parsed_tree(body@) is None && e is Codec && e->Codec_0 is Json,
        },
        !is_success(status) ==> r is Err && fault_of(status, body@, r->Err_0),
{
    match parse_value(body) {
        Ok(v) => if 200 <= status && status < 300 {
            Ok(v)
        } else {
            match read_envelope_meta(&v) {
                Some(meta) => Err(ErrorKind::Fault { code: status, error: ClientError::from_meta(&meta) }),
                None => Err(ErrorKind::Codec(CodecError::Shape(String::from_str("an envelope with a meta member")))),
            }
        },
        Err(e) => Err(ErrorKind::Codec(CodecError::Json(e))),
    }
}

/// The outcome of a venue tips request, from the response's status and body.
pub fn tips_response(status: u16, body: &[u8]) -> (r: Result<Response<TipsResponse>, ErrorKind>)
    ensures
        outcome_of(status, body@, |j: JsonTree| tips_envelope_from_json(j), r),
{
    match response_document(status, body) {
        Ok(v) => match Response::<TipsResponse>::from_json(&v) {
            Some(t) => Ok(t),
            None => Err(ErrorKind::Codec(CodecError::Shape(String::from_str("the envelope of a venue tips response")))),
        },
        Err(e) => Err(e),
    }
}

/// The outcome of a venue hours request, from the response's status and body.
pub fn hours_response(status: u16, body: &[u8]) -> (r: Result<Response<VenueHoursResponse>, ErrorKind>)
    ensures
        outcome_of(status, body@, |j: JsonTree| hours_envelope_from_json(j), r),
{
    match response_document(status, body) {
        Ok(v) => match Response::<VenueHoursResponse>::from_json(&v) {
            Some(t) => Ok(t),
            None => Err(ErrorKind::Codec(CodecError::Shape(String::from_str("the envelope of a venue hours response")))),
        },
        Err(e) => Err(e),
    }
}

} // verus!

//! One exchange with the gateway: the request to send, and what its reply means.

use vstd::prelude::*;
use vstd::string::*;
use crate::error::ApiError;
use crate::json::{is_json_text, parse_value};
use crate::payload::{FieldView, Payload, object_text};

verus! {

/// One POST to send: the route below the gateway's base URL, and the JSON
/// body, if the operation has one.
#[derive(Debug)]
pub struct ApiRequest {
    pub route: String,
    pub body: Option<String>,
}

/// The JSON body that a payload gives, if there is one.
pub open spec fn body_of(payload: Option<Seq<(Seq<char>, FieldView)>>) -> Option<Seq<char>> {
    match payload {
        Some(p) => Some(object_text(p)),
        None => None,
    }
}

/// The view of a request's body.
pub open spec fn body_view(body: Option<String>) -> Option<Seq<char>> {
    match body {
        Some(b) => Some(b@),
        None => None,
    }
}

/// The request for `route`: exactly one, whose body is the payload's JSON text.
pub fn prepare(route: &str, payload: Option<&Payload>) -> (r: ApiRequest)
    ensures
        r.route@ == route@,
        body_view(r.body) == body_of(
            match payload {
                Some(p) => Some(p@),
                None => None,
            },
        ),
{
    let body = match payload {
        Some(p) => Some(p.encode()),
        None => None,
    };
    ApiRequest { route: route.to_owned(), body }
}

impl ApiRequest {
    /// The address to post to: the base URL followed by the route.
    pub fn url(&self, base: &str) -> (r: String)
        ensures
            r@ == base@ + self.route@,
    {
        let mut r = base.to_owned();
        r.append(self.route.as_str());
        r
    }
}

/// How the transport ended one request.
#[derive(Debug)]
pub enum Reply {
    /// The request did not complete (connection refused, timeout, TLS failure).
    Failed(String),
    /// A response arrived with this body.
    Received(String),
}

/// Maps the outcome of parsing a reply's body to the operation's result:
/// the parsed value is handed on as it is.
pub fn decode(parsed: Result<serde_json::Value, serde_json::Error>) -> (r: Result<serde_json::Value, ApiError>)
    ensures
        parsed is Ok ==> r is Ok && r->Ok_0 == parsed->Ok_0,
        parsed is Err ==> r is Err && r->Err_0 is Decode,
{
    match parsed {
        Ok(v) => Ok(v),
        Err(e) => Err(ApiError::Decode(e)),
    }
}

/// The result of an operation, from how its request ended: a transport
/// failure keeps its cause, a body that is not JSON is a decoding error, and
/// any JSON body is returned whatever status it holds.
pub fn finish(reply: Reply) -> (r: Result<serde_json::Value, ApiError>)
    ensures
        (match reply {
            Reply::Failed(cause) => r is Err && r->Err_0 is Transport && r->Err_0->Transport_0@
                == cause@,
            Reply::Received(body) => if is_json_text(body@) {
                r is Ok
            } else {
                r is Err && r->Err_0 is Decode
            },
        }),
{
    match reply {
        Reply::Failed(cause) => Err(ApiError::Transport(cause)),
        Reply::Received(body) => decode(parse_value(body.as_str())),
    }
}

} // verus!

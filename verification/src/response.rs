//! Reading a response: which statuses are a success, what a success holds, and which
//! error anything else is.

use crate::error::{error_from_status, status_error, Error};
use crate::json::{json_member, json_parsed, json_text, missing_member, parse_json, take_member};
use reqwest::Error as TransportError;
use serde_json::Value;
use vstd::prelude::*;

verus! {

/// What the response to a request holds when the request succeeds. Each operation says
/// which of these it expects; nothing is guessed from the response.
#[derive(Clone, Copy, Debug, PartialEq, Eq)]
pub enum Reply {
    /// A JSON document that is the resource itself.
    Bare,
    /// A JSON object that holds the resource under this key.
    Enveloped(&'static str),
    /// Nothing: status 204 says it all.
    Empty,
    /// Nothing that is read: status 200, 201 or 204 will do.
    Acknowledged,
}

impl Reply {
    /// The statuses that are a success for a request that expects this reply.
    pub open spec fn succeeds(self, status: u16) -> bool {
        match self {
            Reply::Bare => status == 200 || status == 201,
            Reply::Enveloped(_) => status == 200 || status == 201,
            Reply::Empty => status == 204,
            Reply::Acknowledged => status == 200 || status == 201 || status == 204,
        }
    }

    /// Whether a success has a document that is to be decoded.
    pub open spec fn has_document(self) -> bool {
        self is Bare || self is Enveloped
    }

    /// Whether `status` is a success for a request that expects this reply.
    pub fn is_success(self, status: u16) -> (b: bool)
        ensures
            b == self.succeeds(status),
    {
        match self {
            Reply::Bare => status == 200 || status == 201,
            Reply::Enveloped(_) => status == 200 || status == 201,
            Reply::Empty => status == 204,
            Reply::Acknowledged => status == 200 || status == 201 || status == 204,
        }
    }
}

/// The body of a response as text: what was read, or nothing where reading failed.
pub open spec fn body_text(body: Result<String, TransportError>) -> Seq<char> {
    match body {
        Ok(text) => text@,
        Err(_) => Seq::empty(),
    }
}

/// The resource that a body holds, as compact JSON text: the document itself, or the
/// member under the envelope's key. Nothing where the body is no JSON, or where the
/// envelope or its key is missing.
pub open spec fn resource_of(reply: Reply, body: Seq<char>) -> Option<Seq<char>> {
    match json_parsed(body) {
        Some(document) => match reply {
            Reply::Enveloped(key) => json_member(document, key@),
            _ => Some(document),
        },
        None => None,
    }
}

/// Where an object holds under `key` what a bare body holds, reading the object through
/// the envelope gives the resource that reading the bare body gives.
pub proof fn lemma_envelope_same_resource(key: &'static str, wrapped: Seq<char>, bare: Seq<char>)
    requires
        json_parsed(wrapped) matches Some(document) && json_member(document, key@) == json_parsed(
            bare,
        ),
    ensures
        resource_of(Reply::Enveloped(key), wrapped) == resource_of(Reply::Bare, bare),
{
}

/// Decodes a body into the resource that it holds. A body that is no JSON, and an
/// envelope without its key, are decode errors.
pub fn decode(reply: Reply, body: &str) -> (r: Result<Value, Error>)
    ensures
        match r {
            Ok(resource) => resource_of(reply, body@) == Some(json_text(resource)),
            Err(e) => resource_of(reply, body@) is None && e@ is Json,
        },
{
    let document = match parse_json(body) {
        Ok(document) => document,
        Err(e) => {
            return Err(Error::Json(e));
        },
    };
    match reply {
        Reply::Enveloped(key) => match take_member(document, key) {
            Some(resource) => Ok(resource),
            None => Err(Error::Json(missing_member(key))),
        },
        _ => Ok(document),
    }
}

/// What reading a response gives, for each status and body.
///
/// - A status that is no success is the error of that status, with the body as it
///   came; a body that could not be read counts as empty.
/// - A success that has no document is done, whatever the body holds.
/// - A success that has a document gives the resource in it; a body that could not
///   be read is a transport error, one that does not hold the resource a decode error.
pub open spec fn response_read(
    reply: Reply,
    status: u16,
    body: Result<String, TransportError>,
    r: Result<Option<Value>, Error>,
) -> bool {
    if !reply.succeeds(status) {
        r matches Err(e) && e@ == status_error(status, body_text(body))
    } else if !reply.has_document() {
        r matches Ok(None)
    } else {
        match body {
            Err(_) => r matches Err(e) && e@ is Http,
            Ok(text) => match resource_of(reply, text@) {
                Some(resource) => r matches Ok(Some(v)) && json_text(v) == resource,
                None => r matches Err(e) && e@ is Json,
            },
        }
    }
}

/// Reads a response: branches on the status, then decodes or classifies.
pub fn handle_response(reply: Reply, status: u16, body: Result<String, TransportError>) -> (r:
    Result<Option<Value>, Error>)
    ensures
        response_read(reply, status, body, r),
        reply is Empty && status == 204 ==> r matches Ok(None),
{
    if !reply.is_success(status) {
        let text = match body {
            Ok(text) => text,
            Err(_) => String::new(),
        };
        return Err(error_from_status(status, text.as_str()));
    }
    match reply {
        Reply::Empty => Ok(None),
        Reply::Acknowledged => Ok(None),
        _ => {
            let text = match body {
                Ok(text) => text,
                Err(e) => {
                    return Err(Error::Http(e));
                },
            };
            match decode(reply, text.as_str()) {
                Ok(resource) => Ok(Some(resource)),
                Err(e) => Err(e),
            }
        },
    }
}

} // verus!

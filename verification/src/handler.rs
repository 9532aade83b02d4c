//! The request handler, one function per stage.
//!
//! An invocation runs `extract_body`, then the caller parses the text, then
//! `accept_record`, then the caller performs the write, then `build_response`.
//! The handler keeps nothing between invocations: what one stage hands to the
//! next travels through the caller.

use crate::ident::{is_uuid_v4, random_v4};
use crate::record::{Book, BookView};
use crate::response::{created_response, empty_body_response, Response, ResponseView};
use crate::store::{record_write, PutItem, PutItemView};
use vstd::prelude::*;

verus! {

/// The body of an inbound request, as the transport delivers it.
#[derive(Debug, Clone, PartialEq, Eq)]
pub enum RequestBody {
    /// No body.
    Empty,
    /// A body of text.
    Text(String),
    /// A body of bytes that the transport did not decode as text.
    Binary(Vec<u8>),
}

/// The outcome of the first stage.
#[derive(Debug, Clone, PartialEq, Eq)]
pub enum Extracted {
    /// The text to parse as a record.
    Text(String),
    /// The response that ends the invocation.
    Rejected(Response),
}

/// Why an invocation ended without a response. Each holds the message of the
/// failure that it stands for.
#[derive(Debug, Clone, PartialEq, Eq)]
pub enum HandlerError {
    /// The body was text but not a record.
    Deserialization(String),
    /// The store did not perform the write.
    Persistence(String),
}

/// A record with its identifier, and the write that stores it.
#[derive(Debug, Clone, PartialEq, Eq)]
pub struct Prepared {
    pub record: Book,
    pub write: PutItem,
}

/// The text that a body carries: `None` for a missing body, for bytes, and
/// for empty text.
pub open spec fn body_text(body: RequestBody) -> Option<Seq<char>> {
    match body {
        RequestBody::Text(text) => if text@.len() > 0 {
            Some(text@)
        } else {
            None
        },
        _ => None,
    }
}

/// The record that is stored for `record` under the identifier `id`: the
/// same name and author, and `id` whatever identifier `record` had.
pub open spec fn stored_record(record: BookView, id: Seq<char>) -> BookView {
    record.with_id(id)
}

/// The write that stores `record` under the identifier `id`.
pub open spec fn stored_write(record: BookView, id: Seq<char>) -> PutItemView {
    record_write(id, record.name, record.author)
}

/// The response to a request whose record `record` was stored under `id`.
pub open spec fn stored_response(record: BookView, id: Seq<char>) -> ResponseView {
    created_response(stored_record(record, id).json())
}

impl HandlerError {
    /// The message of the failure.
    pub open spec fn text(self) -> Seq<char> {
        match self {
            HandlerError::Deserialization(message) => message@,
            HandlerError::Persistence(message) => message@,
        }
    }

    /// The message of the failure.
    pub fn message(&self) -> (message: &str)
        ensures
            message@ == self.text(),
    {
        match self {
            HandlerError::Deserialization(message) => message.as_str(),
            HandlerError::Persistence(message) => message.as_str(),
        }
    }
}

/// First stage: takes the text out of the request body. A body that is
/// missing, empty or not text ends the invocation with status 400.
pub fn extract_body(body: RequestBody) -> (extracted: Extracted)
    ensures
        match body_text(body) {
            Some(text) => extracted matches Extracted::Text(t) && t@ == text,
            None => extracted matches Extracted::Rejected(response) && response@
                == empty_body_response(),
        },
{
    match body {
        RequestBody::Text(text) => {
            if text.as_str().is_empty() {
                Extracted::Rejected(Response::empty_body())
            } else {
                Extracted::Text(text)
            }
        },
        _ => Extracted::Rejected(Response::empty_body()),
    }
}

/// Gives `record` the identifier `id` and describes the write that stores it.
pub fn assign(record: Book, id: String) -> (prepared: Prepared)
    ensures
        prepared.record@ == stored_record(record@, id@),
        prepared.write@ == stored_write(record@, id@),
{
    let write = PutItem::for_record(id.as_str(), record.name.as_str(), record.author.as_str());
    let mut record = record;
    record.assign_id(id);
    Prepared { record, write }
}

/// Second stage: takes the outcome of parsing the body. A record gets a fresh
/// version-4 identifier and its write; a failure to parse ends the invocation
/// before anything is written.
pub fn accept_record(parsed: Result<Book, String>) -> (accepted: Result<Prepared, HandlerError>)
    ensures
        match parsed {
            Ok(record) => {
                &&& accepted matches Ok(prepared)
                &&& prepared.record@.id matches Some(id)
                &&& is_uuid_v4(id)
                &&& prepared.record@ == stored_record(record@, id)
                &&& prepared.write@ == stored_write(record@, id)
            },
            Err(message) => {
                &&& accepted matches Err(HandlerError::Deserialization(m))
                &&& m@ == message@
            },
        },
{
    match parsed {
        Ok(record) => Ok(assign(record, random_v4())),
        Err(message) => Err(HandlerError::Deserialization(message)),
    }
}

/// Third stage: takes the outcome of the write. A stored record is answered
/// with status 201 and the record as JSON; a failed write ends the invocation
/// without a response.
pub fn build_response(record: &Book, stored: Result<(), String>) -> (built: Result<
    Response,
    HandlerError,
>)
    ensures
        match stored {
            Ok(_) => built matches Ok(response) && response@ == created_response(record@.json()),
            Err(message) => {
                &&& built matches Err(HandlerError::Persistence(m))
                &&& m@ == message@
            },
        },
{
    match stored {
        Ok(_) => Ok(Response::created(record.to_json())),
        Err(message) => Err(HandlerError::Persistence(message)),
    }
}

} // verus!

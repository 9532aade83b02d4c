//! The record that the service creates.

use crate::json::{encode_record, record_json};
use vstd::prelude::*;

verus! {

/// One catalog entry. A record that has been stored always carries an
/// identifier; one that was just read from a request need not.
#[derive(Debug, Clone, PartialEq, Eq)]
pub struct Book {
    pub id: Option<String>,
    pub name: String,
    pub author: String,
}

/// What a [`Book`] holds, as mathematical text.
pub struct BookView {
    pub id: Option<Seq<char>>,
    pub name: Seq<char>,
    pub author: Seq<char>,
}

/// The text of an optional string.
pub open spec fn optional_text(s: Option<String>) -> Option<Seq<char>> {
    match s {
        Some(t) => Some(t@),
        None => None,
    }
}

impl View for Book {
    type V = BookView;

    open spec fn view(&self) -> BookView {
        BookView { id: optional_text(self.id), name: self.name@, author: self.author@ }
    }
}

impl BookView {
    /// This record with its identifier replaced by `id`.
    pub open spec fn with_id(self, id: Seq<char>) -> BookView {
        BookView { id: Some(id), name: self.name, author: self.author }
    }

    /// The JSON text of this record.
    pub open spec fn json(self) -> Seq<char> {
        record_json(self.id, self.name, self.author)
    }
}

impl Book {
    /// A record without an identifier.
    pub fn new(name: String, author: String) -> (book: Book)
        ensures
            book@ == (BookView { id: None, name: name@, author: author@ }),
    {
        Book { id: None, name, author }
    }

    /// Gives the record the identifier `id`, replacing any it had.
    pub fn assign_id(&mut self, id: String)
        ensures
            final(self)@ == old(self)@.with_id(id@),
    {
        self.id = Some(id);
    }

    /// The record as JSON text: an object with the members `id`, `name` and
    /// `author`, in this order; a missing identifier is written as `null`.
    pub fn to_json(&self) -> (text: String)
        ensures
            text@ == self@.json(),
    {
        let id = match &self.id {
            Some(i) => Some(i.as_str()),
            None => None,
        };
        encode_record(id, self.name.as_str(), self.author.as_str())
    }
}

} // verus!

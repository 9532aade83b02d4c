//! The single write that the service asks of the key-value store.

use vstd::prelude::*;
use vstd::string::StringExecFns;

verus! {

/// A named, string-typed attribute of an item.
#[derive(Debug, Clone, PartialEq, Eq)]
pub struct Attribute {
    pub name: String,
    pub value: String,
}

/// An unconditional write of one item: it creates the item or replaces the
/// one stored under the same key.
#[derive(Debug, Clone, PartialEq, Eq)]
pub struct PutItem {
    pub table_name: String,
    pub item: Vec<Attribute>,
}

/// What a [`PutItem`] holds: the table, and the attributes as pairs of name
/// and value.
pub struct PutItemView {
    pub table_name: Seq<char>,
    pub item: Seq<(Seq<char>, Seq<char>)>,
}

impl View for Attribute {
    type V = (Seq<char>, Seq<char>);

    open spec fn view(&self) -> (Seq<char>, Seq<char>) {
        (self.name@, self.value@)
    }
}

impl View for PutItem {
    type V = PutItemView;

    open spec fn view(&self) -> PutItemView {
        PutItemView {
            table_name: self.table_name@,
            item: Seq::new(self.item@.len(), |i: int| self.item@[i]@),
        }
    }
}

/// The write that stores a record: into the table `book`, the three
/// attributes `id`, `name` and `author`.
pub open spec fn record_write(id: Seq<char>, name: Seq<char>, author: Seq<char>) -> PutItemView {
    PutItemView {
        table_name: "book"@,
        item: seq![("id"@, id), ("name"@, name), ("author"@, author)],
    }
}

impl Attribute {
    /// The attribute `name` with the value `value`.
    pub fn new(name: &str, value: &str) -> (attribute: Attribute)
        ensures
            attribute@ == (name@, value@),
    {
        Attribute { name: String::from_str(name), value: String::from_str(value) }
    }
}

impl PutItem {
    /// The write that stores the record with the given field values.
    pub fn for_record(id: &str, name: &str, author: &str) -> (write: PutItem)
        ensures
            write@ == record_write(id@, name@, author@),
    {
        let mut item: Vec<Attribute> = Vec::new();
        item.push(Attribute::new("id", id));
        item.push(Attribute::new("name", name));
        item.push(Attribute::new("author", author));
        let write = PutItem { table_name: String::from_str("book"), item };
        assert(write@.item =~= record_write(id@, name@, author@).item);
        write
    }
}

/// The three attributes of a record's write have different names, so a store
/// that keys attributes by name keeps all three.
pub proof fn lemma_attribute_names_differ(id: Seq<char>, name: Seq<char>, author: Seq<char>)
    ensures
        record_write(id, name, author).item.len() == 3,
        record_write(id, name, author).item[0].0 != record_write(id, name, author).item[1].0,
        record_write(id, name, author).item[0].0 != record_write(id, name, author).item[2].0,
        record_write(id, name, author).item[1].0 != record_write(id, name, author).item[2].0,
{
    reveal_strlit("id");
    reveal_strlit("name");
    reveal_strlit("author");
    assert("id"@.len() == 2);
    assert("name"@.len() == 4);
    assert("author"@.len() == 6);
}

} // verus!

//! What holds of every invocation, stated over the models that the
//! handler's contracts use.

use crate::handler::{stored_record, stored_response, stored_write};
use crate::ident::is_uuid_v4;
use crate::json::{json_string, record_object};
use crate::record::BookView;
use vstd::prelude::*;

verus! {

/// A record that parsed and was stored is answered with status 201, and the
/// identifier in the answer is the fresh version-4 identifier, which is never
/// empty, whatever identifier the request carried.
pub proof fn law_stored_record_is_created(record: BookView, id: Seq<char>)
    requires
        is_uuid_v4(id),
    ensures
        stored_response(record, id).status == 201,
        stored_response(record, id).body == record_object(
            json_string(id),
            json_string(record.name),
            json_string(record.author),
        ),
        stored_record(record, id).id == Some(id),
        is_uuid_v4(stored_record(record, id).id.unwrap()),
        stored_record(record, id).id.unwrap().len() == 36,
{
}

/// The identifier that the request carried has no influence on what is
/// stored or answered.
pub proof fn law_supplied_id_is_discarded(record: BookView, supplied: Option<Seq<char>>, id: Seq<char>)
    ensures
        stored_record(BookView { id: supplied, ..record }, id) == stored_record(record, id),
        stored_write(BookView { id: supplied, ..record }, id) == stored_write(record, id),
        stored_response(BookView { id: supplied, ..record }, id) == stored_response(record, id),
{
}

/// Unless the request carried the very identifier that was drawn, the stored
/// identifier differs from the one in the request.
pub proof fn law_stored_id_differs_from_supplied(record: BookView, id: Seq<char>)
    requires
        is_uuid_v4(id),
        record.id != Some(id),
    ensures
        stored_record(record, id).id != record.id,
{
}

/// A supplied identifier that is not a version-4 identifier is never the one
/// that is stored.
pub proof fn law_malformed_supplied_id_is_replaced(
    record: BookView,
    supplied: Seq<char>,
    id: Seq<char>,
)
    requires
        is_uuid_v4(id),
        record.id == Some(supplied),
        !is_uuid_v4(supplied),
    ensures
        stored_record(record, id).id != Some(supplied),
{
}

/// Nothing is deduplicated: the same name and author under two different
/// identifiers are two different records, stored by two different writes.
pub proof fn law_distinct_ids_distinct_records(record: BookView, first: Seq<char>, second: Seq<char>)
    requires
        first != second,
    ensures
        stored_record(record, first) != stored_record(record, second),
        stored_write(record, first) != stored_write(record, second),
        stored_record(record, first).name == stored_record(record, second).name,
        stored_record(record, first).author == stored_record(record, second).author,
{
    assert(stored_write(record, first).item[0].1 == first);
    assert(stored_write(record, second).item[0].1 == second);
}

/// Name and author pass through unchanged: the stored record, the write and
/// the response body all carry the texts that the request's record held.
pub proof fn law_name_and_author_pass_through(record: BookView, id: Seq<char>)
    ensures
        stored_record(record, id).name == record.name,
        stored_record(record, id).author == record.author,
        stored_write(record, id).table_name == "book"@,
        stored_write(record, id).item == seq![
            ("id"@, id),
            ("name"@, record.name),
            ("author"@, record.author),
        ],
        stored_response(record, id).body == "{\"id\":"@ + json_string(id) + ",\"name\":"@
            + json_string(record.name) + ",\"author\":"@ + json_string(record.author) + "}"@,
{
}

} // verus!

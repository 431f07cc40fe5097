//! What holds of the façade across calls and for every reply.
//!
//! The façade keeps no state and decides nothing about stored documents:
//! which documents match a filter, and how many of them an operation
//! touches, is the server's answer. These laws say what the façade does
//! with that answer.

use vstd::prelude::*;
use bson::{Bson, Document};
use mongodb::error::Error;
use mongodb::results::{DeleteResult, InsertOneResult, UpdateResult};
use crate::db::{
    create_outcome, delete_outcome, read_outcome, update_outcome, FindOne, Mongo, OperationError,
};
use crate::driver::{collection_database, collection_name};

verus! {

/// The number of documents that an operation on one document touches when
/// `matching` documents match its filter: none if none match, else one.
pub open spec fn at_most_one(matching: nat) -> int {
    if matching == 0 {
        0
    } else {
        1
    }
}

/// `create` fails exactly when the driver does, and otherwise reports the
/// identifier from the driver's reply. A later `read` whose reply holds a
/// document returns that very document. So where the server keeps the
/// identifier it assigned in the stored document and finds that document
/// again, the caller sees the identifier in what `read` returns.
pub proof fn created_identifier_survives_read(
    insert_reply: Result<InsertOneResult, Error>,
    stored: Document,
)
    ensures
        create_outcome(insert_reply) is Err <==> insert_reply is Err,
        insert_reply matches Ok(inserted) ==> create_outcome(insert_reply) == Ok::<
            Bson,
            OperationError,
        >(inserted.inserted_id),
        read_outcome(Ok(Some(stored))) == Ok::<Option<Document>, OperationError>(Some(stored)),
{
}

/// `read` reports a miss exactly when the driver does, and fails exactly
/// when the driver does: a filter that matches nothing gives `None`, never
/// an error.
pub proof fn read_miss_is_no_error(reply: Result<Option<Document>, Error>)
    ensures
        read_outcome(reply) == Ok::<Option<Document>, OperationError>(None) <==> reply == Ok::<
            Option<Document>,
            Error,
        >(None),
        read_outcome(reply) is Err <==> reply is Err,
{
}

/// Where the server modifies the one document it picked among `matching`
/// candidates, and reports so, `update` returns `Some` of that count: zero
/// if nothing matched, else one.
pub proof fn update_reports_at_most_one(matching: nat, reply: UpdateResult)
    requires
        reply.modified_count == at_most_one(matching),
    ensures
        update_outcome(Ok(reply)) == Ok::<Option<i64>, OperationError>(
            Some(at_most_one(matching) as i64),
        ),
{
}

/// Where the server removes the one document it picked among `matching`
/// candidates, and reports so, `delete` returns that count: zero if nothing
/// matched, else one.
pub proof fn delete_reports_at_most_one(matching: nat, reply: DeleteResult)
    requires
        reply.deleted_count == at_most_one(matching),
    ensures
        delete_outcome(Ok(reply)) == Ok::<i64, OperationError>(at_most_one(matching) as i64),
{
}

/// Two reads through one façade with the same filter ask for the same
/// thing: the same filter, sent to the same collection of the same
/// database. And the same reply gives the same result. So a read repeated
/// against an unchanged collection, which the server answers alike, returns
/// an equal document.
pub proof fn read_is_repeatable(
    mongo: Mongo,
    filter: Document,
    first: FindOne,
    second: FindOne,
    first_reply: Result<Option<Document>, Error>,
    second_reply: Result<Option<Document>, Error>,
)
    requires
        mongo.targets(first.accessor) && first.filter == filter,
        mongo.targets(second.accessor) && second.filter == filter,
        first_reply == second_reply,
    ensures
        first.filter == second.filter,
        collection_database(first.accessor) == collection_database(second.accessor),
        collection_name(first.accessor) == collection_name(second.accessor),
        read_outcome(first_reply) == read_outcome(second_reply),
{
}

} // verus!

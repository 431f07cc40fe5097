//! The types of the MongoDB driver and of BSON that the library handles,
//! and the driver functions that verified code calls.
//!
//! Everything in this file is believed, not proved. Handles, documents,
//! values and errors are opaque: the library only carries them. The three
//! result records are declared with their public fields, which the library
//! reads. The two handle lookups, which touch no network, and the two
//! clones carry the contracts written here.

use vstd::prelude::*;
use bson::oid::ObjectId;
use bson::{Bson, Document, UtcDateTime};
use mongodb::error::{Error, ErrorKind};
use mongodb::results::{DeleteResult, InsertOneResult, UpdateResult};
use mongodb::{Client, Collection, Database};

verus! {

/// `mongodb::Client`: the live connection to a cluster.
#[verifier::external_type_specification]
#[verifier::external_body]
pub struct ExClient(Client);

/// `mongodb::Database`: a client bound to a database name.
#[verifier::external_type_specification]
#[verifier::external_body]
pub struct ExDatabase(Database);

/// `mongodb::Collection`: a database handle bound to a collection name.
#[verifier::external_type_specification]
#[verifier::external_body]
pub struct ExCollection(Collection);

/// `mongodb::error::Error`: whatever the driver reports as a failure.
#[verifier::external_type_specification]
#[verifier::external_body]
pub struct ExError(Error);

/// `mongodb::error::ErrorKind`: the kinds of failure an `Error` points to.
#[verifier::external_type_specification]
#[verifier::external_body]
pub struct ExErrorKind(ErrorKind);

/// `bson::Document`: an ordered record of named values.
#[verifier::external_type_specification]
#[verifier::external_body]
pub struct ExDocument(Document);

/// `bson::Bson`: one dynamically typed value.
#[verifier::external_type_specification]
#[verifier::external_body]
pub struct ExBson(Bson);

/// `bson::oid::ObjectId`: the twelve-byte identifier a server assigns.
#[verifier::external_type_specification]
#[verifier::external_body]
pub struct ExObjectId(ObjectId);

/// `bson::UtcDateTime`: a point in time, in UTC.
#[verifier::external_type_specification]
#[verifier::external_body]
pub struct ExUtcDateTime(UtcDateTime);

/// `mongodb::results::InsertOneResult`, with its one public field.
#[verifier::external_type_specification]
pub struct ExInsertOneResult(InsertOneResult);

/// `mongodb::results::UpdateResult`, with its three public fields.
#[verifier::external_type_specification]
pub struct ExUpdateResult(UpdateResult);

/// `mongodb::results::DeleteResult`, with its one public field.
#[verifier::external_type_specification]
pub struct ExDeleteResult(DeleteResult);

/// The database name that a `Database` handle is bound to, as
/// `Database::name` reports it.
pub uninterp spec fn database_name(db: Database) -> Seq<char>;

/// The collection name that a `Collection` accessor is bound to, as
/// `Collection::name` reports it.
pub uninterp spec fn collection_name(coll: Collection) -> Seq<char>;

/// The name of the database that a `Collection` accessor was taken from:
/// the `db` part of `Collection::namespace`.
pub uninterp spec fn collection_database(coll: Collection) -> Seq<char>;

/// `ObjectId` derives `Clone` over its twelve bytes: the clone is the same
/// identifier.
pub assume_specification[ <ObjectId as Clone>::clone ](id: &ObjectId) -> (copy: ObjectId)
    ensures
        copy == *id,
;

/// `UtcDateTime` is `Copy`: the clone is the same point in time.
pub assume_specification[ <UtcDateTime as Clone>::clone ](time: &UtcDateTime) -> (copy:
    UtcDateTime)
    ensures
        copy == *time,
;

/// `Client::database` builds a handle from a clone of the client and a copy
/// of `name`. It sends nothing, and the handle reports that same name.
pub assume_specification[ Client::database ](client: &Client, name: &str) -> (db: Database)
    ensures
        database_name(db) == name@,
;

/// `Database::collection` builds an accessor from a clone of the database
/// handle and a copy of `name`. It sends nothing; the accessor reports that
/// collection name and the database name of the handle it came from.
pub assume_specification[ Database::collection ](db: &Database, name: &str) -> (coll: Collection)
    ensures
        collection_name(coll) == name@,
        collection_database(coll) == database_name(*db),
;

} // verus!

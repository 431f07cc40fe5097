//! The CRUD façade over one collection of one database, and the three
//! handles behind it: connection, database, collection.
//!
//! Nothing here touches the network. Each operation of the façade is a pair:
//! a function that says which round trip to make, and a function that turns
//! the driver's reply into the operation's result. Whoever owns the network
//! makes the round trip in between.

use std::sync::Arc;
use vstd::prelude::*;
use bson::{Bson, Document};
use mongodb::error::Error;
use mongodb::results::{DeleteResult, InsertOneResult, UpdateResult};
use mongodb::{Client, Collection, Database};
use crate::driver::{collection_database, collection_name, database_name};

verus! {

/// Why a connection could not be set up. Carries the driver's error as it
/// came.
#[derive(Debug)]
pub struct ConnectionError {
    pub source: Error,
}

/// Why a CRUD call failed. Carries the driver's error as it came.
#[derive(Debug)]
pub struct OperationError {
    pub source: Error,
}

/// The data operations that a document store offers on one collection.
///
/// Every operation touches at most one document. A filter that matches
/// nothing is no failure: `read` then gives `None`, `update` and `delete`
/// give a count of zero.
pub trait Crud {
    /// Stores `doc` and gives back the identifier the server assigned to it.
    fn create(&self, doc: Document) -> Result<Bson, OperationError>;

    /// Gives the first document that matches the filter `doc`, if any.
    fn read(&self, doc: Document) -> Result<Option<Document>, OperationError>;

    /// Applies `update` to the first document that matches `filter` and
    /// gives the number of documents modified.
    fn update(&self, filter: Document, update: Document) -> Result<Option<i64>, OperationError>;

    /// Removes the first document that matches the filter `doc` and gives
    /// the number of documents removed.
    fn delete(&self, doc: Document) -> Result<i64, OperationError>;
}

/// The round trip behind `create`: insert `document` through `accessor`.
#[derive(Debug)]
pub struct InsertOne {
    pub accessor: Collection,
    pub document: Document,
}

/// The round trip behind `read`: find one document matching `filter`
/// through `accessor`.
#[derive(Debug)]
pub struct FindOne {
    pub accessor: Collection,
    pub filter: Document,
}

/// The round trip behind `update`: apply `update` to one document matching
/// `filter` through `accessor`.
#[derive(Debug)]
pub struct UpdateOne {
    pub accessor: Collection,
    pub filter: Document,
    pub update: Document,
}

/// The round trip behind `delete`: remove one document matching `filter`
/// through `accessor`.
#[derive(Debug)]
pub struct DeleteOne {
    pub accessor: Collection,
    pub filter: Document,
}

/// What `create` returns for a given reply to its insert.
pub open spec fn create_outcome(reply: Result<InsertOneResult, Error>) -> Result<
    Bson,
    OperationError,
> {
    match reply {
        Ok(result) => Ok(result.inserted_id),
        Err(e) => Err(OperationError { source: e }),
    }
}

/// What `read` returns for a given reply to its find.
pub open spec fn read_outcome(reply: Result<Option<Document>, Error>) -> Result<
    Option<Document>,
    OperationError,
> {
    match reply {
        Ok(found) => Ok(found),
        Err(e) => Err(OperationError { source: e }),
    }
}

/// What `update` returns for a given reply to its update.
pub open spec fn update_outcome(reply: Result<UpdateResult, Error>) -> Result<
    Option<i64>,
    OperationError,
> {
    match reply {
        Ok(result) => Ok(Some(result.modified_count)),
        Err(e) => Err(OperationError { source: e }),
    }
}

/// What `delete` returns for a given reply to its delete.
pub open spec fn delete_outcome(reply: Result<DeleteResult, Error>) -> Result<
    i64,
    OperationError,
> {
    match reply {
        Ok(result) => Ok(result.deleted_count),
        Err(e) => Err(OperationError { source: e }),
    }
}

/// A façade bound to one database name, one collection name and one shared
/// connection.
pub struct Mongo {
    /// Name of the database to work in.
    database: String,
    /// Name of the collection to work in.
    collection: String,
    /// The connection, shared by reference count.
    client: Arc<MongoClient>,
}

impl Mongo {
    /// The database name this façade is bound to.
    pub closed spec fn database(&self) -> Seq<char> {
        self.database@
    }

    /// The collection name this façade is bound to.
    pub closed spec fn collection(&self) -> Seq<char> {
        self.collection@
    }

    /// The connection this façade works through.
    pub closed spec fn client(&self) -> MongoClient {
        *self.client
    }

    /// Whether `accessor` points at this façade's collection in this
    /// façade's database.
    pub open spec fn targets(&self, accessor: Collection) -> bool {
        &&& collection_database(accessor) == self.database()
        &&& collection_name(accessor) == self.collection()
    }

    pub fn new(database: String, collection: String, client: MongoClient) -> (mongo: Self)
        ensures
            mongo.database() == database@,
            mongo.collection() == collection@,
            mongo.client() == client,
    {
        Self { database, collection, client: Arc::new(client) }
    }

    /// Resolves the collection accessor anew from the shared connection.
    fn accessor(&self) -> (accessor: Collection)
        ensures
            self.targets(accessor),
    {
        self.client.get_db(&self.database).get_collection(&self.collection)
    }

    /// The round trip that `create` makes for `doc`: an insert of exactly
    /// `doc` into this façade's collection.
    pub fn create_request(&self, doc: Document) -> (request: InsertOne)
        ensures
            self.targets(request.accessor),
            request.document == doc,
    {
        InsertOne { accessor: self.accessor(), document: doc }
    }

    /// The result of `create`, given the driver's reply to the insert: the
    /// identifier of the inserted document, or the driver's error.
    pub fn create_result(reply: Result<InsertOneResult, Error>) -> (result: Result<
        Bson,
        OperationError,
    >)
        ensures
            result == create_outcome(reply),
    {
        match reply {
            Ok(result) => Ok(result.inserted_id),
            Err(e) => Err(OperationError { source: e }),
        }
    }

    /// The round trip that `read` makes for the filter `doc`: a find of one
    /// document in this façade's collection.
    pub fn read_request(&self, doc: Document) -> (request: FindOne)
        ensures
            self.targets(request.accessor),
            request.filter == doc,
    {
        FindOne { accessor: self.accessor(), filter: doc }
    }

    /// The result of `read`, given the driver's reply to the find: the
    /// document found, `None` where nothing matched, or the driver's error.
    /// A miss is never turned into an error, nor an error into a miss.
    pub fn read_result(reply: Result<Option<Document>, Error>) -> (result: Result<
        Option<Document>,
        OperationError,
    >)
        ensures
            result == read_outcome(reply),
            result is Err <==> reply is Err,
    {
        match reply {
            Ok(found) => Ok(found),
            Err(e) => Err(OperationError { source: e }),
        }
    }

    /// The round trip that `update` makes: `update` applied to one document
    /// matching `filter` in this façade's collection.
    pub fn update_request(&self, filter: Document, update: Document) -> (request: UpdateOne)
        ensures
            self.targets(request.accessor),
            request.filter == filter,
            request.update == update,
    {
        UpdateOne { accessor: self.accessor(), filter, update }
    }

    /// The result of `update`, given the driver's reply: the number of
    /// documents the driver reports as modified, or the driver's error. A
    /// reply that arrived always yields a count, zero included.
    pub fn update_result(reply: Result<UpdateResult, Error>) -> (result: Result<
        Option<i64>,
        OperationError,
    >)
        ensures
            result == update_outcome(reply),
            result != Ok::<Option<i64>, OperationError>(None),
    {
        match reply {
            Ok(result) => Ok(Some(result.modified_count)),
            Err(e) => Err(OperationError { source: e }),
        }
    }

    /// The round trip that `delete` makes for the filter `doc`: removal of
    /// one matching document from this façade's collection.
    pub fn delete_request(&self, doc: Document) -> (request: DeleteOne)
        ensures
            self.targets(request.accessor),
            request.filter == doc,
    {
        DeleteOne { accessor: self.accessor(), filter: doc }
    }

    /// The result of `delete`, given the driver's reply: the number of
    /// documents the driver reports as removed, or the driver's error.
    pub fn delete_result(reply: Result<DeleteResult, Error>) -> (result: Result<
        i64,
        OperationError,
    >)
        ensures
            result == delete_outcome(reply),
    {
        match reply {
            Ok(result) => Ok(result.deleted_count),
            Err(e) => Err(OperationError { source: e }),
        }
    }
}

/// The connection handle: owns the driver's client.
pub struct MongoClient {
    client: Client,
}

impl MongoClient {
    /// The driver's client that this handle owns.
    pub closed spec fn driver(&self) -> Client {
        self.client
    }

    /// Finishes a connection attempt. `attempt` is what the driver made of
    /// the connection string: a client, which the new handle then owns, or
    /// the error, which is passed on.
    pub fn connect(attempt: Result<Client, Error>) -> (handle: Result<Self, ConnectionError>)
        ensures
            match attempt {
                Ok(client) => handle matches Ok(h) && h.driver() == client,
                Err(e) => handle matches Err(failure) && failure == (ConnectionError {
                    source: e,
                }),
            },
    {
        match attempt {
            Ok(client) => Ok(Self { client }),
            Err(e) => Err(ConnectionError { source: e }),
        }
    }

    /// Gets a handle to the database `db_name`. The database need not exist.
    fn get_db(&self, db_name: &str) -> (handle: MongoDatabase)
        ensures
            handle.name() == db_name@,
    {
        let db = self.client.database(db_name);
        MongoDatabase::new(db)
    }
}

/// The database handle: a connection bound to a database name.
pub struct MongoDatabase {
    db: Database,
}

impl MongoDatabase {
    /// The driver's handle that this one wraps.
    pub closed spec fn driver(&self) -> Database {
        self.db
    }

    /// The database name this handle is bound to.
    pub open spec fn name(&self) -> Seq<char> {
        database_name(self.driver())
    }

    pub fn new(db: Database) -> (handle: Self)
        ensures
            handle.driver() == db,
    {
        Self { db }
    }

    /// Gets an accessor to the collection `collection` of this database.
    /// The collection need not exist.
    pub fn get_collection(&self, collection: &str) -> (accessor: Collection)
        ensures
            collection_name(accessor) == collection@,
            collection_database(accessor) == self.name(),
    {
        self.db.collection(collection)
    }
}

} // verus!

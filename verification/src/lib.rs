//! A CRUD façade over one collection of a MongoDB database.
//!
//! The façade is bound to a database name, a collection name and a shared
//! connection. For each of its four operations it says which round trip to
//! make and what the driver's reply means; it never touches the network
//! itself, so each of its decisions is proved for every reply.
//!
//! - [`db`]: the façade, its errors, and the connection, database and
//!   collection handles behind it.
//! - [`models`]: the task records kept in a collection.
//! - [`laws`]: what holds of the façade across calls.
//! - [`driver`]: the driver's types and the contracts taken on trust.

pub mod db;
pub mod driver;
pub mod laws;
pub mod models;

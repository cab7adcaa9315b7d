//! An HTTP gateway in front of one GraphQL schema: request routing, the
//! explorer page, and how execution results are framed as HTTP replies.
//! Executing a query against the schema and the transport itself live with
//! the caller; this crate decides everything around them.

pub mod routes;
pub mod explorer;
pub mod reply;
pub mod gateway;

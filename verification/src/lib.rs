//! Typed requests to a storage service and typed responses from it.
//!
//! An operation is prepared with a builder whose type records which of the
//! required parameters have been supplied, so that the request can only be
//! composed once all of them are there. The answer of the service is decoded
//! as a descriptor says: a list of headers, each with the kind of value that
//! it carries. Nothing here sends or receives: a request is handed out as
//! plain values, and the answer is taken as the transport received it.

pub mod client;
pub mod descriptor;
pub mod errors;
pub mod exchange;
pub mod headers;
pub mod lease;
pub mod markers;
pub mod parameters;
pub mod release_lease_builder;
pub mod release_lease_response;
pub mod renew_blob_lease_response;
pub mod request;
pub mod text;
pub mod time;

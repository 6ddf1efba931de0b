//! The handle of the storage service that builders borrow.

use vstd::prelude::*;
use vstd::string::*;
use crate::markers::No;
use crate::release_lease_builder::{Parameters, ReleaseLeaseBuilder};

verus! {

/// Shared, read-only configuration of one storage account. Builders borrow
/// it; it has to outlive them and the requests made from them.
#[derive(Debug, Clone)]
pub struct Client {
    blob_uri: String,
}

impl Client {
    /// The root of the blob service, as given to `new`.
    pub closed spec fn endpoint(&self) -> Seq<char> {
        self.blob_uri@
    }

    /// A client for the blob service rooted at `blob_uri`, for example
    /// `https://account.blob.core.windows.net`.
    pub fn new(blob_uri: &str) -> (client: Client)
        ensures
            client.endpoint() == blob_uri@,
    {
        Client { blob_uri: String::from_str(blob_uri) }
    }

    /// Starts a request that releases a lease on a container. Nothing is set
    /// on the builder yet.
    pub fn release_lease(&self) -> (builder: ReleaseLeaseBuilder<'_, No, No>)
        ensures
            builder@ == Parameters::empty(self.endpoint()),
            builder.client_spec() == self,
    {
        ReleaseLeaseBuilder::new(self)
    }

    /// The root of the blob service; request paths are appended to it.
    pub fn blob_uri(&self) -> (uri: &str)
        ensures
            uri@ == self.endpoint(),
    {
        self.blob_uri.as_str()
    }
}

} // verus!

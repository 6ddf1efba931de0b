//! The response to a request that renews a lease on a blob.

use hyper::header::HeaderValue;
use hyper::HeaderMap;
use vstd::prelude::*;
use crate::descriptor::{
    conforms,
    decode,
    decoded,
    entries,
    lemma_decoded_conforms,
    values,
    Field,
    FieldKind,
    FieldSpec,
    FieldValue,
    Value,
};
use crate::errors::{AzureError, Failure};
use crate::headers::{header_fields, DATE, ETAG, LAST_MODIFIED, LEASE_ID, REQUEST_ID};
use crate::lease::{LeaseId, RequestId};
use crate::time::Timestamp;

verus! {

/// What the service says of a lease that it has renewed.
#[derive(Debug, Clone, PartialEq, Eq)]
pub struct RenewBlobLeaseResponse {
    pub etag: String,
    pub last_modified: Timestamp,
    pub lease_id: LeaseId,
    pub request_id: RequestId,
    pub date: Timestamp,
}

impl RenewBlobLeaseResponse {
    /// The response's descriptor: five required headers.
    pub open spec fn fields() -> Seq<Field> {
        seq![
            Field { header: ETAG@, field: "etag"@, kind: FieldKind::Text, required: true },
            Field {
                header: LAST_MODIFIED@,
                field: "last_modified"@,
                kind: FieldKind::Timestamp,
                required: true,
            },
            Field {
                header: LEASE_ID@,
                field: "lease_id"@,
                kind: FieldKind::Identifier,
                required: true,
            },
            Field {
                header: REQUEST_ID@,
                field: "request_id"@,
                kind: FieldKind::Identifier,
                required: true,
            },
            Field { header: DATE@, field: "date"@, kind: FieldKind::Timestamp, required: true },
        ]
    }

    /// The response's fields as values, in the descriptor's order.
    pub open spec fn values(&self) -> Seq<Value> {
        seq![
            Value::Text(self.etag@),
            Value::Timestamp(self.last_modified),
            Value::Identifier(self.lease_id@),
            Value::Identifier(self.request_id@),
            Value::Timestamp(self.date),
        ]
    }

    /// The response's descriptor.
    pub fn descriptor() -> (descriptor: Vec<FieldSpec>)
        ensures
            entries(descriptor@) == Self::fields(),
    {
        let mut descriptor: Vec<FieldSpec> = Vec::new();
        descriptor.push(
            FieldSpec { header: ETAG, field: "etag", kind: FieldKind::Text, required: true },
        );
        descriptor.push(
            FieldSpec {
                header: LAST_MODIFIED,
                field: "last_modified",
                kind: FieldKind::Timestamp,
                required: true,
            },
        );
        descriptor.push(
            FieldSpec {
                header: LEASE_ID,
                field: "lease_id",
                kind: FieldKind::Identifier,
                required: true,
            },
        );
        descriptor.push(
            FieldSpec {
                header: REQUEST_ID,
                field: "request_id",
                kind: FieldKind::Identifier,
                required: true,
            },
        );
        descriptor.push(
            FieldSpec { header: DATE, field: "date", kind: FieldKind::Timestamp, required: true },
        );
        assert(entries(descriptor@) =~= Self::fields());
        descriptor
    }

    /// The response that a list of decoded values makes up, if the list
    /// conforms to the response's descriptor.
    pub fn from_values(list: Vec<FieldValue>) -> (response: Option<RenewBlobLeaseResponse>)
        ensures
            response is Some <==> conforms(Self::fields(), values(list@)),
            response matches Some(r) ==> r.values() == values(list@),
    {
        let ghost all = values(list@);
        proof {
            if conforms(Self::fields(), all) {
                assert(Self::fields()[0].holds(all[0]));
                assert(Self::fields()[1].holds(all[1]));
                assert(Self::fields()[2].holds(all[2]));
                assert(Self::fields()[3].holds(all[3]));
                assert(Self::fields()[4].holds(all[4]));
            }
        }
        let mut list = list;
        if list.len() != 5 {
            return None;
        }
        let date = list.pop().unwrap().timestamp();
        let request_id = list.pop().unwrap().identifier();
        let lease_id = list.pop().unwrap().identifier();
        let last_modified = list.pop().unwrap().timestamp();
        let etag = list.pop().unwrap().text();
        match (etag, last_modified, lease_id, request_id, date) {
            (Some(etag), Some(last_modified), Some(lease_id), Some(request_id), Some(date)) => {
                let response = RenewBlobLeaseResponse {
                    etag,
                    last_modified,
                    lease_id,
                    request_id,
                    date,
                };
                assert(response.values() =~= all);
                assert(conforms(Self::fields(), all));
                Some(response)
            },
            _ => {
                assert(!Self::fields()[0].holds(all[0]) || !Self::fields()[1].holds(all[1])
                    || !Self::fields()[2].holds(all[2]) || !Self::fields()[3].holds(all[3])
                    || !Self::fields()[4].holds(all[4]));
                None
            },
        }
    }

    /// Decodes the response from the headers of the service's answer.
    pub fn from_headers(
        headers: &HeaderMap<HeaderValue>,
    ) -> (result: Result<RenewBlobLeaseResponse, AzureError>)
        ensures
            match result {
                Ok(response) => decoded(Self::fields(), header_fields(*headers)) == Ok::<
                    Seq<Value>,
                    Failure,
                >(response.values()),
                Err(e) => decoded(Self::fields(), header_fields(*headers)) == Err::<
                    Seq<Value>,
                    Failure,
                >(e@),
            },
    {
        let descriptor = Self::descriptor();
        match decode(descriptor.as_slice(), headers) {
            Ok(list) => {
                proof {
                    lemma_decoded_conforms(Self::fields(), header_fields(*headers));
                }
                Ok(Self::from_values(list).unwrap())
            },
            Err(error) => Err(error),
        }
    }
}

} // verus!

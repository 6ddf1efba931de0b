//! How the parameters that several operations share appear on the wire:
//! as a fragment of the query or as a header. An optional parameter that was
//! never set leaves no trace in the request.

use vstd::prelude::*;
use vstd::string::*;
use crate::headers::{CLIENT_REQUEST_ID, LEASE_ID};
use crate::lease::LeaseId;
use crate::request::{header_pairs, Header};
use crate::text::{decimal, push_decimal};

verus! {

/// The query fragment of a timeout of `seconds` seconds.
pub open spec fn timeout_parameter(seconds: u64) -> Seq<char> {
    "timeout="@ + decimal(seconds as nat)
}

/// What an optional timeout adds to a query that already has parameters:
/// `&timeout=N` if it is set, nothing otherwise.
pub open spec fn timeout_suffix(timeout: Option<u64>) -> Seq<char> {
    match timeout {
        Some(seconds) => "&"@ + timeout_parameter(seconds),
        None => Seq::empty(),
    }
}

/// The headers that an optional client request id adds: one if it is set,
/// none otherwise.
pub open spec fn client_request_id_headers(id: Option<Seq<char>>) -> Seq<(Seq<char>, Seq<char>)> {
    match id {
        Some(id) => seq![(CLIENT_REQUEST_ID@, id)],
        None => Seq::empty(),
    }
}

/// The query fragment `timeout=N` of a timeout, if one is set.
pub fn timeout_to_uri_parameter(timeout: Option<u64>) -> (fragment: Option<String>)
    ensures
        match timeout {
            Some(seconds) => fragment matches Some(f) && f@ == timeout_parameter(seconds),
            None => fragment is None,
        },
{
    match timeout {
        Some(seconds) => {
            let mut fragment = String::from_str("timeout=");
            push_decimal(&mut fragment, seconds);
            Some(fragment)
        },
        None => None,
    }
}

/// Adds the client request id header if an id is set.
pub fn add_client_request_id_header(id: Option<&str>, headers: &mut Vec<Header>)
    ensures
        header_pairs(final(headers)@) == header_pairs(old(headers)@) + client_request_id_headers(
            match id {
                Some(id) => Some(id@),
                None => None,
            },
        ),
{
    match id {
        Some(id) => {
            headers.push(
                Header { name: String::from_str(CLIENT_REQUEST_ID), value: String::from_str(id) },
            );
            assert(header_pairs(headers@) =~= header_pairs(old(headers)@) + seq![
                (CLIENT_REQUEST_ID@, id@),
            ]);
        },
        None => {
            assert(header_pairs(headers@) =~= header_pairs(old(headers)@) + Seq::<
                (Seq<char>, Seq<char>),
            >::empty());
        },
    }
}

/// Adds the header that names the lease.
pub fn add_lease_id_header(lease_id: &LeaseId, headers: &mut Vec<Header>)
    ensures
        header_pairs(final(headers)@) == header_pairs(old(headers)@).push((LEASE_ID@, lease_id@)),
{
    headers.push(
        Header { name: String::from_str(LEASE_ID), value: String::from_str(lease_id.as_str()) },
    );
    assert(header_pairs(headers@) =~= header_pairs(old(headers)@).push((LEASE_ID@, lease_id@)));
}

} // verus!

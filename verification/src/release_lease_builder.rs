//! The builder of the request that releases a lease on a container.
//!
//! The builder's type records which of the two required parameters, the
//! container's name and the lease's id, have been supplied. `finalize` exists
//! only on the type in which both are `Yes`.

use std::marker::PhantomData;
use vstd::prelude::*;
use vstd::string::*;
use crate::client::Client;
use crate::lease::LeaseId;
use crate::markers::{No, ToAssign, Yes};
use crate::descriptor::{lemma_decoded_conforms, Value};
use crate::errors::{AzureError, Failure};
use crate::exchange::{conclude, concluded, reported, Reply, STATUS_OK};
use crate::headers::{lower, CLIENT_REQUEST_ID, LEASE_ACTION, LEASE_ID};
use crate::parameters::{
    add_client_request_id_header,
    add_lease_id_header,
    client_request_id_headers,
    timeout_suffix,
    timeout_to_uri_parameter,
};
use crate::release_lease_response::ReleaseLeaseResponse;
use crate::request::{header_pairs, Header, Method, Request, RequestView};

verus! {

/// Accumulates the parameters of a release-lease request. Every setter takes
/// the builder by value and returns a new one, so a configured builder is
/// never changed in place.
#[derive(Debug)]
pub struct ReleaseLeaseBuilder<'a, ContainerNameSet, LeaseIdSet>
where
    ContainerNameSet: ToAssign,
    LeaseIdSet: ToAssign,
{
    client: &'a Client,
    p_container_name: PhantomData<ContainerNameSet>,
    p_lease_id: PhantomData<LeaseIdSet>,
    container_name: Option<&'a str>,
    client_request_id: Option<&'a str>,
    timeout: Option<u64>,
    lease_id: Option<&'a LeaseId>,
}

/// What a builder holds: the endpoint of its client and one slot for each
/// parameter, empty until the parameter is set.
pub struct Parameters {
    pub endpoint: Seq<char>,
    pub container_name: Option<Seq<char>>,
    pub client_request_id: Option<Seq<char>>,
    pub timeout: Option<u64>,
    pub lease_id: Option<Seq<char>>,
}

impl Parameters {
    /// The parameters of a builder on which nothing has been set.
    pub open spec fn empty(endpoint: Seq<char>) -> Parameters {
        Parameters {
            endpoint,
            container_name: None,
            client_request_id: None,
            timeout: None,
            lease_id: None,
        }
    }

    pub open spec fn with_container_name(self, container_name: Seq<char>) -> Parameters {
        Parameters { container_name: Some(container_name), ..self }
    }

    pub open spec fn with_client_request_id(self, client_request_id: Seq<char>) -> Parameters {
        Parameters { client_request_id: Some(client_request_id), ..self }
    }

    pub open spec fn with_timeout(self, timeout: u64) -> Parameters {
        Parameters { timeout: Some(timeout), ..self }
    }

    pub open spec fn with_lease_id(self, lease_id: Seq<char>) -> Parameters {
        Parameters { lease_id: Some(lease_id), ..self }
    }

    /// Whether both required parameters are set.
    pub open spec fn complete(self) -> bool {
        self.container_name is Some && self.lease_id is Some
    }

    /// The address of the request: the container under the endpoint, the two
    /// fixed query parameters of a lease operation on a container, and the
    /// timeout if one is set.
    pub open spec fn uri(self) -> Seq<char>
        recommends
            self.complete(),
    {
        self.endpoint + "/"@ + self.container_name->0 + "?comp=lease&restype=container"@
            + timeout_suffix(self.timeout)
    }

    /// The headers of the request, in the order in which they are added: the
    /// client request id if one is set, the lease id, the lease action.
    pub open spec fn headers(self) -> Seq<(Seq<char>, Seq<char>)>
        recommends
            self.complete(),
    {
        client_request_id_headers(self.client_request_id) + seq![
            (LEASE_ID@, self.lease_id->0),
            (LEASE_ACTION@, "release"@),
        ]
    }

    /// The request that releases the lease.
    pub open spec fn request(self) -> RequestView
        recommends
            self.complete(),
    {
        RequestView {
            method: Method::Put,
            uri: self.uri(),
            headers: self.headers(),
            body: Some(Seq::empty()),
        }
    }
}

impl<'a, ContainerNameSet, LeaseIdSet> View for ReleaseLeaseBuilder<'a, ContainerNameSet, LeaseIdSet>
where
    ContainerNameSet: ToAssign,
    LeaseIdSet: ToAssign,
{
    type V = Parameters;

    closed spec fn view(&self) -> Parameters {
        Parameters {
            endpoint: self.client.endpoint(),
            container_name: match self.container_name {
                Some(name) => Some(name@),
                None => None,
            },
            client_request_id: match self.client_request_id {
                Some(id) => Some(id@),
                None => None,
            },
            timeout: self.timeout,
            lease_id: match self.lease_id {
                Some(id) => Some(id@),
                None => None,
            },
        }
    }
}

impl<'a, ContainerNameSet, LeaseIdSet> Clone for ReleaseLeaseBuilder<'a, ContainerNameSet, LeaseIdSet>
where
    ContainerNameSet: ToAssign,
    LeaseIdSet: ToAssign,
{
    /// A second builder with the same parameters, to be configured on its own.
    fn clone(&self) -> (copy: Self)
        ensures
            copy@ == self@,
            copy.client_spec() == self.client_spec(),
    {
        proof {
            use_type_invariant(self);
        }
        ReleaseLeaseBuilder {
            client: self.client,
            p_container_name: PhantomData,
            p_lease_id: PhantomData,
            container_name: self.container_name,
            client_request_id: self.client_request_id,
            timeout: self.timeout,
            lease_id: self.lease_id,
        }
    }
}

impl<'a> ReleaseLeaseBuilder<'a, No, No> {
    /// A builder bound to `client` on which no parameter is set.
    pub fn new(client: &'a Client) -> (builder: ReleaseLeaseBuilder<'a, No, No>)
        ensures
            builder@ == Parameters::empty(client.endpoint()),
            builder.client_spec() == client,
    {
        ReleaseLeaseBuilder {
            client,
            p_container_name: PhantomData,
            container_name: None,
            p_lease_id: PhantomData,
            lease_id: None,
            client_request_id: None,
            timeout: None,
        }
    }
}

impl<'a, ContainerNameSet, LeaseIdSet> ReleaseLeaseBuilder<'a, ContainerNameSet, LeaseIdSet>
where
    ContainerNameSet: ToAssign,
    LeaseIdSet: ToAssign,
{
    /// The marks in the builder's type tell the truth about its slots: a
    /// required parameter's slot is filled exactly if its mark is set.
    #[verifier::type_invariant]
    pub closed spec fn well_formed(&self) -> bool {
        &&& ContainerNameSet::is_set() <==> self.container_name is Some
        &&& LeaseIdSet::is_set() <==> self.lease_id is Some
    }

    /// The client that the builder was made for.
    pub closed spec fn client_spec(&self) -> &'a Client {
        self.client
    }

    /// The client that the builder was made for.
    pub fn client(&self) -> (client: &'a Client)
        ensures
            client == self.client_spec(),
            client.endpoint() == self@.endpoint,
    {
        self.client
    }

    /// The client request id, if one is set.
    pub fn client_request_id(&self) -> (id: Option<&'a str>)
        ensures
            match id {
                Some(id) => self@.client_request_id == Some(id@),
                None => self@.client_request_id is None,
            },
    {
        self.client_request_id
    }

    /// The timeout in seconds, if one is set.
    pub fn timeout(&self) -> (timeout: Option<u64>)
        ensures
            timeout == self@.timeout,
    {
        self.timeout
    }

    /// Sets the container's name and marks it as set. Setting it again
    /// replaces the earlier name.
    pub fn with_container_name(
        self,
        container_name: &'a str,
    ) -> (builder: ReleaseLeaseBuilder<'a, Yes, LeaseIdSet>)
        ensures
            builder@ == self@.with_container_name(container_name@),
            builder.client_spec() == self.client_spec(),
    {
        proof {
            use_type_invariant(&self);
        }
        ReleaseLeaseBuilder {
            client: self.client,
            p_container_name: PhantomData,
            p_lease_id: PhantomData,
            container_name: Some(container_name),
            client_request_id: self.client_request_id,
            timeout: self.timeout,
            lease_id: self.lease_id,
        }
    }

    /// Sets the client request id. It is optional: the marks stay as they are.
    pub fn with_client_request_id(
        self,
        client_request_id: &'a str,
    ) -> (builder: ReleaseLeaseBuilder<'a, ContainerNameSet, LeaseIdSet>)
        ensures
            builder@ == self@.with_client_request_id(client_request_id@),
            builder.client_spec() == self.client_spec(),
    {
        proof {
            use_type_invariant(&self);
        }
        ReleaseLeaseBuilder {
            client: self.client,
            p_container_name: PhantomData,
            p_lease_id: PhantomData,
            container_name: self.container_name,
            client_request_id: Some(client_request_id),
            timeout: self.timeout,
            lease_id: self.lease_id,
        }
    }

    /// Sets the timeout in seconds. It is optional: the marks stay as they are.
    pub fn with_timeout(
        self,
        timeout: u64,
    ) -> (builder: ReleaseLeaseBuilder<'a, ContainerNameSet, LeaseIdSet>)
        ensures
            builder@ == self@.with_timeout(timeout),
            builder.client_spec() == self.client_spec(),
    {
        proof {
            use_type_invariant(&self);
        }
        ReleaseLeaseBuilder {
            client: self.client,
            p_container_name: PhantomData,
            p_lease_id: PhantomData,
            container_name: self.container_name,
            client_request_id: self.client_request_id,
            timeout: Some(timeout),
            lease_id: self.lease_id,
        }
    }

    /// Sets the lease's id and marks it as set. Setting it again replaces the
    /// earlier id.
    pub fn with_lease_id(
        self,
        lease_id: &'a LeaseId,
    ) -> (builder: ReleaseLeaseBuilder<'a, ContainerNameSet, Yes>)
        ensures
            builder@ == self@.with_lease_id(lease_id@),
            builder.client_spec() == self.client_spec(),
    {
        proof {
            use_type_invariant(&self);
        }
        ReleaseLeaseBuilder {
            client: self.client,
            p_container_name: PhantomData,
            p_lease_id: PhantomData,
            container_name: self.container_name,
            client_request_id: self.client_request_id,
            timeout: self.timeout,
            lease_id: Some(lease_id),
        }
    }
}

impl<'a, LeaseIdSet> ReleaseLeaseBuilder<'a, Yes, LeaseIdSet>
where
    LeaseIdSet: ToAssign,
{
    /// The container's name. The method exists only once the name is set.
    pub fn container_name(&self) -> (name: &'a str)
        ensures
            self@.container_name == Some(name@),
    {
        proof {
            use_type_invariant(self);
        }
        self.container_name.unwrap()
    }
}

impl<'a, ContainerNameSet> ReleaseLeaseBuilder<'a, ContainerNameSet, Yes>
where
    ContainerNameSet: ToAssign,
{
    /// The lease's id. The method exists only once the id is set.
    pub fn lease_id(&self) -> (id: &'a LeaseId)
        ensures
            self@.lease_id == Some(id@),
    {
        proof {
            use_type_invariant(self);
        }
        self.lease_id.unwrap()
    }
}

impl<'a> ReleaseLeaseBuilder<'a, Yes, Yes> {
    /// Composes the request that releases the lease and gives up the
    /// builder. What comes back is the exchange that the request opens: it
    /// holds the request for the transport, and takes what the transport
    /// reports to give the response.
    pub fn finalize(self) -> (exchange: ReleaseLeaseExchange)
        ensures
            self@.complete(),
            exchange@ == self@.request(),
    {
        proof {
            use_type_invariant(&self);
        }
        let mut uri = String::from_str(self.client().blob_uri());
        uri.append("/");
        uri.append(self.container_name());
        uri.append("?comp=lease&restype=container");
        if let Some(parameter) = timeout_to_uri_parameter(self.timeout()) {
            uri.append("&");
            uri.append(parameter.as_str());
        }
        assert(uri@ =~= self@.uri());

        let mut headers: Vec<Header> = Vec::new();
        add_client_request_id_header(self.client_request_id(), &mut headers);
        add_lease_id_header(self.lease_id(), &mut headers);
        let ghost named = headers@;
        headers.push(
            Header { name: String::from_str(LEASE_ACTION), value: String::from_str("release") },
        );
        assert(header_pairs(headers@) =~= header_pairs(named).push(
            (LEASE_ACTION@, "release"@),
        ));
        assert(header_pairs(headers@) =~= self@.headers());

        ReleaseLeaseExchange {
            request: Request { method: Method::Put, uri, headers, body: Some(Vec::new()) },
        }
    }
}

/// One exchange with the service that releases a lease: the request has been
/// composed, the answer is still to come.
#[derive(Debug)]
pub struct ReleaseLeaseExchange {
    request: Request,
}

impl View for ReleaseLeaseExchange {
    type V = RequestView;

    closed spec fn view(&self) -> RequestView {
        self.request@
    }
}

impl ReleaseLeaseExchange {
    /// The request to send.
    pub fn request(&self) -> (request: &Request)
        ensures
            request@ == self@,
    {
        &self.request
    }

    /// Ends the exchange with what the transport reports. A failure of the
    /// transport is passed on. An answer of another status than 200 fails
    /// with that status and the body, and its headers are not looked at. An
    /// answer of status 200 gives the response decoded from its headers, or
    /// the failure of the first header that cannot be had.
    pub fn complete(
        self,
        outcome: Result<Reply, String>,
    ) -> (result: Result<ReleaseLeaseResponse, AzureError>)
        ensures
            match result {
                Ok(response) => concluded(
                    reported(outcome),
                    STATUS_OK,
                    ReleaseLeaseResponse::fields(),
                ) == Ok::<Seq<Value>, Failure>(response.values()),
                Err(e) => concluded(reported(outcome), STATUS_OK, ReleaseLeaseResponse::fields())
                    == Err::<Seq<Value>, Failure>(e@),
            },
    {
        let descriptor = ReleaseLeaseResponse::descriptor();
        match conclude(outcome, STATUS_OK, descriptor.as_slice()) {
            Ok(list) => {
                proof {
                    lemma_decoded_conforms(
                        ReleaseLeaseResponse::fields(),
                        reported(outcome)->Ok_0.fields,
                    );
                }
                Ok(ReleaseLeaseResponse::from_values(list).unwrap())
            },
            Err(error) => Err(error),
        }
    }
}

/// The marks of a builder's type say which required parameters it holds: a
/// mark is set exactly if the parameter's slot is filled. So the builder on
/// which `finalize` exists, the one with both marks set, holds both.
pub proof fn lemma_marks_match_slots<'a, ContainerNameSet, LeaseIdSet>(
    builder: ReleaseLeaseBuilder<'a, ContainerNameSet, LeaseIdSet>,
) where ContainerNameSet: ToAssign, LeaseIdSet: ToAssign
    requires
        builder.well_formed(),
    ensures
        ContainerNameSet::is_set() <==> builder@.container_name is Some,
        LeaseIdSet::is_set() <==> builder@.lease_id is Some,
        ContainerNameSet::is_set() && LeaseIdSet::is_set() <==> builder@.complete(),
{
}

/// Setting a parameter again replaces its value and changes nothing else:
/// of two calls of one setter only the second shows. A parameter that is set
/// stays set.
pub proof fn lemma_last_value_wins(
    parameters: Parameters,
    first: Seq<char>,
    second: Seq<char>,
    first_timeout: u64,
    second_timeout: u64,
)
    ensures
        parameters.with_container_name(first).with_container_name(second)
            == parameters.with_container_name(second),
        parameters.with_lease_id(first).with_lease_id(second) == parameters.with_lease_id(second),
        parameters.with_client_request_id(first).with_client_request_id(second)
            == parameters.with_client_request_id(second),
        parameters.with_timeout(first_timeout).with_timeout(second_timeout)
            == parameters.with_timeout(second_timeout),
        parameters.with_container_name(first).container_name is Some,
        parameters.with_container_name(first).with_container_name(second).container_name is Some,
        parameters.with_lease_id(first).lease_id is Some,
        parameters.with_lease_id(first).with_lease_id(second).lease_id is Some,
{
}

/// An optional parameter that was never set leaves no trace in the request:
/// without a timeout the address ends with the two fixed query parameters,
/// and without a client request id no header of that name is sent.
pub proof fn lemma_unset_leaves_no_trace(parameters: Parameters)
    requires
        parameters.complete(),
    ensures
        parameters.timeout is None ==> parameters.request().uri == parameters.endpoint + "/"@
            + parameters.container_name->0 + "?comp=lease&restype=container"@,
        parameters.client_request_id is None ==> parameters.request().headers == seq![
            (LEASE_ID@, parameters.lease_id->0),
            (LEASE_ACTION@, "release"@),
        ],
        parameters.client_request_id is None ==> !parameters.request().has_header(
            CLIENT_REQUEST_ID@,
        ),
{
    if parameters.timeout is None {
        assert(parameters.uri() =~= parameters.endpoint + "/"@ + parameters.container_name->0
            + "?comp=lease&restype=container"@);
    }
    if parameters.client_request_id is None {
        reveal_strlit("x-ms-client-request-id");
        reveal_strlit("x-ms-lease-id");
        reveal_strlit("x-ms-lease-action");
        let headers = parameters.request().headers;
        assert(headers =~= seq![
            (LEASE_ID@, parameters.lease_id->0),
            (LEASE_ACTION@, "release"@),
        ]);
        assert(lower(LEASE_ID@).len() != lower(CLIENT_REQUEST_ID@).len());
        assert(lower(LEASE_ACTION@).len() != lower(CLIENT_REQUEST_ID@).len());
    }
}

} // verus!

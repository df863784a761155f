//! Builder and request assembly for renewing a container lease.
use vstd::prelude::*;
use std::marker::PhantomData;
use crate::error::AzureError;
use crate::query::{
    append_opt_number, client_request_id_headers, opt_decimal, opt_param, push_client_request_id,
    LEASE_ACTION, LEASE_ID, REQUEST_ID, TIMEOUT_PARAM,
};
use crate::request::{header_view, make_header, opt_str_view, Client, DescriptorView, Header, Method, RequestDescriptor};
use crate::response::{check_status, find_header, header_value, headers_view, is_unexpected_status, opt_string_is};
use crate::list_builder::SCHEME;
use crate::typestate::{LeaseId, No, ToAssign, Yes};

verus! {

pub const CONTAINER_HOST: &'static str = ".blob.core.windows.net/";
pub const LEASE_QUERY: &'static str = "?comp=lease&restype=container";
pub const RENEW: &'static str = "renew";
pub const RENEW_SUCCESS: u16 = 200;

/// The abstract state of a renew-lease request under construction.
pub struct RenewLeaseQuery {
    pub account: Seq<char>,
    pub container_name: Option<Seq<char>>,
    pub lease_id: Option<Seq<char>>,
    pub timeout: Option<u64>,
    pub client_request_id: Option<Seq<char>>,
}

impl RenewLeaseQuery {
    pub open spec fn initial(account: Seq<char>) -> RenewLeaseQuery {
        RenewLeaseQuery {
            account,
            container_name: None,
            lease_id: None,
            timeout: None,
            client_request_id: None,
        }
    }

    pub open spec fn set_container_name(self, n: Seq<char>) -> RenewLeaseQuery {
        RenewLeaseQuery { container_name: Some(n), ..self }
    }

    pub open spec fn set_lease_id(self, l: Seq<char>) -> RenewLeaseQuery {
        RenewLeaseQuery { lease_id: Some(l), ..self }
    }

    pub open spec fn set_timeout(self, t: u64) -> RenewLeaseQuery {
        RenewLeaseQuery { timeout: Some(t), ..self }
    }

    pub open spec fn set_client_request_id(self, id: Seq<char>) -> RenewLeaseQuery {
        RenewLeaseQuery { client_request_id: Some(id), ..self }
    }

    /// Every required parameter has been supplied.
    pub open spec fn is_complete(self) -> bool {
        self.container_name is Some && self.lease_id is Some
    }

    pub open spec fn uri(self) -> Seq<char> {
        SCHEME@ + self.account + CONTAINER_HOST@ + self.container_name.unwrap() + LEASE_QUERY@
            + opt_param(TIMEOUT_PARAM@, opt_decimal(self.timeout))
    }

    /// The request that a complete query assembles to; the lease action is fixed.
    pub open spec fn descriptor(self) -> DescriptorView {
        DescriptorView {
            method: Method::Put,
            uri: self.uri(),
            headers: client_request_id_headers(self.client_request_id).push(
                (LEASE_ID@, self.lease_id.unwrap()),
            ).push((LEASE_ACTION@, RENEW@)),
            body: Some(Seq::empty()),
        }
    }
}

/// The required parameters compose independently: supplying both, in either
/// order, completes a query; supplying only one from the start does not; the
/// optional setters never change completeness.
pub proof fn lemma_required_parameters(q: RenewLeaseQuery, n: Seq<char>, l: Seq<char>, t: u64, id: Seq<char>)
    ensures
        q.set_container_name(n).set_lease_id(l) == q.set_lease_id(l).set_container_name(n),
        q.set_container_name(n).set_lease_id(l).is_complete(),
        !RenewLeaseQuery::initial(q.account).is_complete(),
        !RenewLeaseQuery::initial(q.account).set_container_name(n).is_complete(),
        !RenewLeaseQuery::initial(q.account).set_lease_id(l).is_complete(),
        q.set_timeout(t).is_complete() == q.is_complete(),
        q.set_client_request_id(id).is_complete() == q.is_complete(),
{
}

/// Setting the timeout twice keeps the last value only.
pub proof fn lemma_renew_timeout_last_write_wins(q: RenewLeaseQuery, t1: u64, t2: u64)
    ensures
        q.set_timeout(t1).set_timeout(t2) == q.set_timeout(t2),
        q.set_timeout(t1).set_timeout(t2).descriptor() == q.set_timeout(t2).descriptor(),
{
}

/// Assembly is a function of the builder's state, and the lease action header
/// is always the last one, with the value `renew`.
pub proof fn lemma_renew_assembly(a: RenewLeaseQuery, b: RenewLeaseQuery)
    requires
        a == b,
    ensures
        a.descriptor() == b.descriptor(),
        a.descriptor().headers.last() == (LEASE_ACTION@, RENEW@),
{
}

/// Collects the parameters of a lease renewal. The tags `C` and `L` record
/// whether the container name and the lease id have been supplied; `finalize`
/// exists only once both are `Yes`.
#[derive(Debug)]
pub struct RenewLeaseBuilder<'a, C: ToAssign, L: ToAssign> {
    client: &'a Client,
    p_container_name: PhantomData<C>,
    p_lease_id: PhantomData<L>,
    container_name: Option<&'a str>,
    client_request_id: Option<&'a str>,
    timeout: Option<u64>,
    lease_id: Option<&'a LeaseId>,
}

impl<'a, C: ToAssign, L: ToAssign> View for RenewLeaseBuilder<'a, C, L> {
    type V = RenewLeaseQuery;

    closed spec fn view(&self) -> RenewLeaseQuery {
        RenewLeaseQuery {
            account: self.client.account_view(),
            container_name: opt_str_view(self.container_name),
            lease_id: match self.lease_id {
                Some(l) => Some(l@),
                None => None,
            },
            timeout: self.timeout,
            client_request_id: opt_str_view(self.client_request_id),
        }
    }
}

impl<'a, C: ToAssign, L: ToAssign> RenewLeaseBuilder<'a, C, L> {
    /// Each tag says exactly whether its parameter is present.
    #[verifier::type_invariant]
    closed spec fn tags_match(&self) -> bool {
        &&& C::assigned() == self.container_name is Some
        &&& L::assigned() == self.lease_id is Some
    }

    pub fn client(&self) -> (r: &'a Client)
        ensures
            r.account_view() == self@.account,
    {
        self.client
    }

    pub fn client_request_id(&self) -> (r: Option<&'a str>)
        ensures
            opt_str_view(r) == self@.client_request_id,
    {
        self.client_request_id
    }

    pub fn timeout(&self) -> (r: Option<u64>)
        ensures
            r == self@.timeout,
    {
        self.timeout
    }

    /// Whether both required parameters are present; this is exactly when both
    /// tags are `Yes`, that is, when `finalize` can be called.
    pub fn is_complete(&self) -> (r: bool)
        ensures
            r == self@.is_complete(),
            r == (C::assigned() && L::assigned()),
    {
        proof { use_type_invariant(self); }
        self.container_name.is_some() && self.lease_id.is_some()
    }

    pub fn with_container_name(self, container_name: &'a str) -> (r: RenewLeaseBuilder<'a, Yes, L>)
        ensures
            r@ == self@.set_container_name(container_name@),
    {
        proof { use_type_invariant(&self); }
        RenewLeaseBuilder {
            client: self.client,
            p_container_name: PhantomData,
            p_lease_id: PhantomData,
            container_name: Some(container_name),
            client_request_id: self.client_request_id,
            timeout: self.timeout,
            lease_id: self.lease_id,
        }
    }

    pub fn with_client_request_id(self, client_request_id: &'a str) -> (r: Self)
        ensures
            r@ == self@.set_client_request_id(client_request_id@),
    {
        proof { use_type_invariant(&self); }
        RenewLeaseBuilder {
            client: self.client,
            p_container_name: PhantomData,
            p_lease_id: PhantomData,
            container_name: self.container_name,
            client_request_id: Some(client_request_id),
            timeout: self.timeout,
            lease_id: self.lease_id,
        }
    }

    pub fn with_timeout(self, timeout: u64) -> (r: Self)
        ensures
            r@ == self@.set_timeout(timeout),
    {
        proof { use_type_invariant(&self); }
        RenewLeaseBuilder {
            client: self.client,
            p_container_name: PhantomData,
            p_lease_id: PhantomData,
            container_name: self.container_name,
            client_request_id: self.client_request_id,
            timeout: Some(timeout),
            lease_id: self.lease_id,
        }
    }

    pub fn with_lease_id(self, lease_id: &'a LeaseId) -> (r: RenewLeaseBuilder<'a, C, Yes>)
        ensures
            r@ == self@.set_lease_id(lease_id@),
    {
        proof { use_type_invariant(&self); }
        RenewLeaseBuilder {
            client: self.client,
            p_container_name: PhantomData,
            p_lease_id: PhantomData,
            container_name: self.container_name,
            client_request_id: self.client_request_id,
            timeout: self.timeout,
            lease_id: Some(lease_id),
        }
    }
}

impl<'a> RenewLeaseBuilder<'a, No, No> {
    pub fn new(client: &'a Client) -> (r: RenewLeaseBuilder<'a, No, No>)
        ensures
            r@ == RenewLeaseQuery::initial(client.account_view()),
    {
        RenewLeaseBuilder {
            client,
            p_container_name: PhantomData,
            p_lease_id: PhantomData,
            container_name: None,
            client_request_id: None,
            timeout: None,
            lease_id: None,
        }
    }
}

impl<'a, L: ToAssign> RenewLeaseBuilder<'a, Yes, L> {
    pub fn container_name(&self) -> (r: &'a str)
        ensures
            self@.container_name == Some(r@),
    {
        proof { use_type_invariant(self); }
        self.container_name.unwrap()
    }
}

impl<'a, C: ToAssign> RenewLeaseBuilder<'a, C, Yes> {
    pub fn lease_id(&self) -> (r: &'a LeaseId)
        ensures
            self@.lease_id == Some(r@),
    {
        proof { use_type_invariant(self); }
        self.lease_id.unwrap()
    }
}

impl<'a> RenewLeaseBuilder<'a, Yes, Yes> {
    /// Assembles the renewal request; reachable only with both required parameters.
    pub fn finalize(self) -> (r: RequestDescriptor)
        ensures
            self@.is_complete(),
            r@ == self@.descriptor(),
    {
        let container_name = self.container_name();
        let lease_id = self.lease_id();
        let mut uri = String::from_str(SCHEME);
        uri.append(self.client.account());
        uri.append(CONTAINER_HOST);
        uri.append(container_name);
        uri.append(LEASE_QUERY);
        append_opt_number(&mut uri, TIMEOUT_PARAM, self.timeout);
        assert(uri@ =~= self@.uri());
        let mut headers: Vec<Header> = Vec::new();
        push_client_request_id(&mut headers, self.client_request_id);
        headers.push(make_header(LEASE_ID, lease_id.as_str()));
        headers.push(make_header(LEASE_ACTION, RENEW));
        assert(headers@.map_values(|h: Header| header_view(h)) =~= self@.descriptor().headers);
        let body: Vec<u8> = Vec::new();
        assert(body@ =~= Seq::<u8>::empty());
        RequestDescriptor { method: Method::Put, uri, headers, body: Some(body) }
    }
}

/// The decoded answer to a renewal.
#[derive(Clone, Debug)]
pub struct RenewLeaseResponse {
    pub lease_id: LeaseId,
    pub request_id: Option<String>,
}

/// Classifies the answer to a renewal: any status but the success status is a
/// failure carrying the status and body; a success must carry the lease id header.
pub fn decode_renew_lease_response(status: u16, headers: &Vec<Header>, body: String) -> (r: Result<
    RenewLeaseResponse,
    AzureError,
>)
    ensures
        status != RENEW_SUCCESS ==> r is Err && is_unexpected_status(r->Err_0, RENEW_SUCCESS, status, body@),
        status == RENEW_SUCCESS ==> match find_header(headers_view(headers@), LEASE_ID@) {
            Some(l) => r matches Ok(resp) && resp.lease_id@ == l && opt_string_is(
                resp.request_id,
                find_header(headers_view(headers@), REQUEST_ID@),
            ),
            None => r matches Err(AzureError::MissingHeader(n)) && n@ == LEASE_ID@,
        },
{
    let _body = check_status(status, RENEW_SUCCESS, body)?;
    let lease_id = match header_value(headers, LEASE_ID) {
        Some(l) => LeaseId::new(l),
        None => {
            return Err(AzureError::MissingHeader(String::from_str(LEASE_ID)));
        },
    };
    let request_id = header_value(headers, REQUEST_ID);
    Ok(RenewLeaseResponse { lease_id, request_id })
}

} // verus!

//! Builder and request assembly for the "list containers" operation.
use vstd::prelude::*;
use crate::decimal::{decimal, push_decimal};
use crate::query::{
    append_opt_number, append_opt_param, client_request_id_headers, opt_decimal, opt_param,
    push_client_request_id, MARKER_PARAM, PREFIX_PARAM, REQUEST_ID, TIMEOUT_PARAM,
};
use crate::error::AzureError;
use crate::listing::{body_page, failure_is, incomplete_vector_from_response, Container, IncompleteVector};
use crate::response::{check_status, find_header, header_value, headers_view, is_unexpected_status, opt_string_is};
use crate::request::{header_view, opt_str_view, Client, DescriptorView, Header, Method, RequestDescriptor};

verus! {

pub const LIST_HOST: &'static str = ".blob.core.windows.net?comp=list&maxresults=";
pub const SCHEME: &'static str = "https://";
pub const INCLUDE_METADATA: &'static str = "&include=metadata";
pub const DEFAULT_MAX_RESULTS: u64 = 5000;

/// The abstract state of a list request under construction.
pub struct ListQuery {
    pub account: Seq<char>,
    pub max_results: u64,
    pub include_metadata: bool,
    pub next_marker: Option<Seq<char>>,
    pub prefix: Option<Seq<char>>,
    pub timeout: Option<u64>,
    pub client_request_id: Option<Seq<char>>,
}

impl ListQuery {
    /// A fresh query: default page size, no filter, no marker, no options.
    pub open spec fn initial(account: Seq<char>) -> ListQuery {
        ListQuery {
            account,
            max_results: DEFAULT_MAX_RESULTS,
            include_metadata: false,
            next_marker: None,
            prefix: None,
            timeout: None,
            client_request_id: None,
        }
    }

    pub open spec fn set_max_results(self, n: u64) -> ListQuery {
        ListQuery { max_results: n, ..self }
    }

    pub open spec fn set_include_metadata(self) -> ListQuery {
        ListQuery { include_metadata: true, ..self }
    }

    pub open spec fn set_next_marker(self, m: Seq<char>) -> ListQuery {
        ListQuery { next_marker: Some(m), ..self }
    }

    pub open spec fn set_prefix(self, p: Seq<char>) -> ListQuery {
        ListQuery { prefix: Some(p), ..self }
    }

    pub open spec fn set_timeout(self, t: u64) -> ListQuery {
        ListQuery { timeout: Some(t), ..self }
    }

    pub open spec fn set_client_request_id(self, id: Seq<char>) -> ListQuery {
        ListQuery { client_request_id: Some(id), ..self }
    }

    /// The same filters, resumed at marker `m`.
    pub open spec fn resumed_at(self, m: Option<Seq<char>>) -> ListQuery {
        ListQuery { next_marker: m, ..self }
    }

    /// The URI up to the marker: fixed parameters first, then the filters.
    pub open spec fn filter_part(self) -> Seq<char> {
        SCHEME@ + self.account + LIST_HOST@ + decimal(self.max_results as nat) + (if self.include_metadata {
            INCLUDE_METADATA@
        } else {
            Seq::empty()
        }) + opt_param(PREFIX_PARAM@, self.prefix)
    }

    /// The URI after the marker.
    pub open spec fn timeout_part(self) -> Seq<char> {
        opt_param(TIMEOUT_PARAM@, opt_decimal(self.timeout))
    }

    /// The target URI: filters, then the marker if any, then the timeout if any.
    pub open spec fn uri(self) -> Seq<char> {
        self.filter_part() + opt_param(MARKER_PARAM@, self.next_marker) + self.timeout_part()
    }

    /// The request that this query assembles to.
    pub open spec fn descriptor(self) -> DescriptorView {
        DescriptorView {
            method: Method::Get,
            uri: self.uri(),
            headers: client_request_id_headers(self.client_request_id),
            body: None,
        }
    }
}

/// Collects the parameters of a list request; every parameter is optional.
#[derive(Clone, Debug)]
pub struct ListBuilder<'a> {
    client: &'a Client,
    max_results: u64,
    include_metadata: bool,
    next_marker: Option<&'a str>,
    prefix: Option<&'a str>,
    timeout: Option<u64>,
    client_request_id: Option<&'a str>,
}

impl<'a> View for ListBuilder<'a> {
    type V = ListQuery;

    closed spec fn view(&self) -> ListQuery {
        ListQuery {
            account: self.client.account_view(),
            max_results: self.max_results,
            include_metadata: self.include_metadata,
            next_marker: opt_str_view(self.next_marker),
            prefix: opt_str_view(self.prefix),
            timeout: self.timeout,
            client_request_id: opt_str_view(self.client_request_id),
        }
    }
}

impl<'a> ListBuilder<'a> {
    pub fn new(client: &'a Client) -> (r: ListBuilder<'a>)
        ensures
            r@ == ListQuery::initial(client.account_view()),
    {
        ListBuilder {
            client,
            max_results: DEFAULT_MAX_RESULTS,
            include_metadata: false,
            next_marker: None,
            prefix: None,
            timeout: None,
            client_request_id: None,
        }
    }

    pub fn client(&self) -> (r: &'a Client)
        ensures
            r.account_view() == self@.account,
    {
        self.client
    }

    pub fn max_results(&self) -> (r: u64)
        ensures
            r == self@.max_results,
    {
        self.max_results
    }

    pub fn with_max_results(self, max_results: u64) -> (r: Self)
        ensures
            r@ == self@.set_max_results(max_results),
    {
        ListBuilder { max_results, ..self }
    }

    pub fn is_metadata_included(&self) -> (r: bool)
        ensures
            r == self@.include_metadata,
    {
        self.include_metadata
    }

    pub fn include_metadata(self) -> (r: Self)
        ensures
            r@ == self@.set_include_metadata(),
    {
        ListBuilder { include_metadata: true, ..self }
    }

    pub fn prefix(&self) -> (r: Option<&'a str>)
        ensures
            opt_str_view(r) == self@.prefix,
    {
        self.prefix
    }

    pub fn with_prefix(self, prefix: &'a str) -> (r: Self)
        ensures
            r@ == self@.set_prefix(prefix@),
    {
        ListBuilder { prefix: Some(prefix), ..self }
    }

    pub fn timeout(&self) -> (r: Option<u64>)
        ensures
            r == self@.timeout,
    {
        self.timeout
    }

    pub fn with_timeout(self, timeout: u64) -> (r: Self)
        ensures
            r@ == self@.set_timeout(timeout),
    {
        ListBuilder { timeout: Some(timeout), ..self }
    }

    pub fn next_marker(&self) -> (r: Option<&'a str>)
        ensures
            opt_str_view(r) == self@.next_marker,
    {
        self.next_marker
    }

    pub fn with_next_marker(self, next_marker: &'a str) -> (r: Self)
        ensures
            r@ == self@.set_next_marker(next_marker@),
    {
        ListBuilder { next_marker: Some(next_marker), ..self }
    }

    pub fn client_request_id(&self) -> (r: Option<&'a str>)
        ensures
            opt_str_view(r) == self@.client_request_id,
    {
        self.client_request_id
    }

    pub fn with_client_request_id(self, client_request_id: &'a str) -> (r: Self)
        ensures
            r@ == self@.set_client_request_id(client_request_id@),
    {
        ListBuilder { client_request_id: Some(client_request_id), ..self }
    }

    /// Assembles the request for one page of the listing.
    pub fn finalize(self) -> (r: RequestDescriptor)
        ensures
            r@ == self@.descriptor(),
    {
        let mut uri = String::from_str(SCHEME);
        uri.append(self.client.account());
        uri.append(LIST_HOST);
        push_decimal(&mut uri, self.max_results);
        let ghost fixed = uri@;
        if self.include_metadata {
            uri.append(INCLUDE_METADATA);
        }
        let ghost with_meta = uri@;
        assert(with_meta =~= fixed + (if self@.include_metadata {
            INCLUDE_METADATA@
        } else {
            Seq::empty()
        }));
        append_opt_param(&mut uri, PREFIX_PARAM, self.prefix);
        assert(uri@ =~= self@.filter_part());
        append_opt_param(&mut uri, MARKER_PARAM, self.next_marker);
        append_opt_number(&mut uri, TIMEOUT_PARAM, self.timeout);
        assert(uri@ =~= self@.uri());
        let mut headers: Vec<Header> = Vec::new();
        push_client_request_id(&mut headers, self.client_request_id);
        assert(headers@.map_values(|h: Header| header_view(h)) =~= client_request_id_headers(
            self@.client_request_id,
        ));
        RequestDescriptor { method: Method::Get, uri, headers, body: None }
    }

    /// The builder for the page after `page`: the same filters, resumed at the
    /// page's marker; `None` once the enumeration is complete.
    pub fn next_page<T>(self, page: &'a IncompleteVector<T>) -> (r: Option<ListBuilder<'a>>)
        ensures
            page.next_marker is None ==> r is None,
            page.next_marker matches Some(m) ==> (r matches Some(b) && b@ == self@.set_next_marker(m@)),
    {
        match &page.next_marker {
            Some(m) => Some(self.with_next_marker(m.as_str())),
            None => None,
        }
    }
}

/// Setting the timeout twice keeps the last value only: the request is the one
/// that a single call with the second value gives.
pub proof fn lemma_timeout_last_write_wins(q: ListQuery, t1: u64, t2: u64)
    ensures
        q.set_timeout(t1).set_timeout(t2) == q.set_timeout(t2),
        q.set_timeout(t1).set_timeout(t2).descriptor() == q.set_timeout(t2).descriptor(),
        q.set_timeout(t2).timeout_part() == TIMEOUT_PARAM@ + decimal(t2 as nat),
{
}

/// Assembly is a function of the builder's state: equal states give equal requests.
pub proof fn lemma_list_assembly_deterministic(a: ListQuery, b: ListQuery)
    requires
        a == b,
    ensures
        a.descriptor() == b.descriptor(),
{
}

/// A request without a marker carries no marker parameter; a marker handed to
/// the next request appears in its URI unchanged, between the filters and the
/// timeout, and the filters themselves are those of the first request.
pub proof fn lemma_marker_round_trip(q: ListQuery, m: Seq<char>)
    ensures
        q.next_marker is None ==> q.uri() == q.filter_part() + q.timeout_part(),
        q.set_next_marker(m).uri() == q.filter_part() + MARKER_PARAM@ + m + q.timeout_part(),
        q.set_next_marker(m).filter_part() == q.filter_part(),
{
    assert(q.next_marker is None ==> q.uri() =~= q.filter_part() + q.timeout_part());
    assert(q.set_next_marker(m).uri() =~= q.filter_part() + MARKER_PARAM@ + m + q.timeout_part());
}

pub const LIST_SUCCESS: u16 = 200;

/// The decoded answer to a list request.
#[derive(Clone, Debug)]
pub struct ListContainersResponse {
    pub incomplete_vector: IncompleteVector<Container>,
    pub request_id: Option<String>,
}

/// Classifies the answer to a list request: any status but the success status
/// is a failure that carries the status and the body, whatever the body holds.
pub fn decode_list_response(status: u16, headers: &Vec<Header>, body: String) -> (r: Result<
    ListContainersResponse,
    AzureError,
>)
    ensures
        status != LIST_SUCCESS ==> r is Err && is_unexpected_status(r->Err_0, LIST_SUCCESS, status, body@),
        status == LIST_SUCCESS ==> match body_page(body@) {
            Ok((names, m)) => r matches Ok(resp) && resp.incomplete_vector.names() == names
                && resp.incomplete_vector.marker_view() == m && opt_string_is(
                resp.request_id,
                find_header(headers_view(headers@), REQUEST_ID@),
            ),
            Err(d) => r matches Err(e) && failure_is(e, d),
        },
{
    let body = check_status(status, LIST_SUCCESS, body)?;
    let incomplete_vector = incomplete_vector_from_response(body.as_str())?;
    let request_id = header_value(headers, REQUEST_ID);
    Ok(ListContainersResponse { incomplete_vector, request_id })
}

} // verus!

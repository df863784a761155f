//! Query-string and header contributions shared by the request builders.
use vstd::prelude::*;
use crate::decimal::{decimal, push_decimal};
use crate::request::{header_view, make_header, opt_str_view, Header};

verus! {

pub const PREFIX_PARAM: &'static str = "&prefix=";
pub const MARKER_PARAM: &'static str = "&marker=";
pub const TIMEOUT_PARAM: &'static str = "&timeout=";
pub const CLIENT_REQUEST_ID: &'static str = "x-ms-client-request-id";
pub const LEASE_ID: &'static str = "x-ms-lease-id";
pub const LEASE_ACTION: &'static str = "x-ms-lease-action";
pub const REQUEST_ID: &'static str = "x-ms-request-id";

/// `key` followed by the value, or nothing when the value is absent.
pub open spec fn opt_param(key: Seq<char>, v: Option<Seq<char>>) -> Seq<char> {
    match v {
        Some(s) => key + s,
        None => Seq::empty(),
    }
}

/// The decimal text of an optional number.
pub open spec fn opt_decimal(v: Option<u64>) -> Option<Seq<char>> {
    match v {
        Some(n) => Some(decimal(n as nat)),
        None => None,
    }
}

/// The header line that carries an optional client request id, if any.
pub open spec fn client_request_id_headers(id: Option<Seq<char>>) -> Seq<(Seq<char>, Seq<char>)> {
    match id {
        Some(s) => seq![(CLIENT_REQUEST_ID@, s)],
        None => Seq::empty(),
    }
}

/// Appends `key` and `v` to `uri` when `v` is present; otherwise leaves it alone.
pub fn append_opt_param(uri: &mut String, key: &str, v: Option<&str>)
    ensures
        final(uri)@ == old(uri)@ + opt_param(key@, opt_str_view(v)),
{
    match v {
        Some(s) => {
            uri.append(key);
            uri.append(s);
            assert(final(uri)@ =~= old(uri)@ + opt_param(key@, opt_str_view(v)));
        },
        None => {
            assert(final(uri)@ =~= old(uri)@ + opt_param(key@, opt_str_view(v)));
        },
    }
}

/// Appends `key` and the decimal text of `v` to `uri` when `v` is present.
pub fn append_opt_number(uri: &mut String, key: &str, v: Option<u64>)
    ensures
        final(uri)@ == old(uri)@ + opt_param(key@, opt_decimal(v)),
{
    match v {
        Some(n) => {
            uri.append(key);
            push_decimal(uri, n);
            assert(final(uri)@ =~= old(uri)@ + opt_param(key@, opt_decimal(v)));
        },
        None => {
            assert(final(uri)@ =~= old(uri)@ + opt_param(key@, opt_decimal(v)));
        },
    }
}

/// Adds the client request id header to `headers` when an id is present.
pub fn push_client_request_id(headers: &mut Vec<Header>, id: Option<&str>)
    ensures
        final(headers)@.map_values(|h: Header| header_view(h)) == old(headers)@.map_values(
            |h: Header| header_view(h),
        ) + client_request_id_headers(opt_str_view(id)),
{
    match id {
        Some(s) => {
            headers.push(make_header(CLIENT_REQUEST_ID, s));
        },
        None => {},
    }
    assert(final(headers)@.map_values(|h: Header| header_view(h)) =~= old(headers)@.map_values(
        |h: Header| header_view(h),
    ) + client_request_id_headers(opt_str_view(id)));
}

} // verus!

//! Status checks and header lookups on a transport response.
use vstd::prelude::*;
use crate::error::AzureError;
use crate::request::{header_view, Header};

verus! {

/// The value of the first header line named `name`, if any.
pub open spec fn find_header(hs: Seq<(Seq<char>, Seq<char>)>, name: Seq<char>) -> Option<Seq<char>>
    decreases hs.len(),
{
    if hs.len() == 0 {
        None
    } else if hs[0].0 == name {
        Some(hs[0].1)
    } else {
        find_header(hs.drop_first(), name)
    }
}

/// The mathematical value of a list of header lines.
pub open spec fn headers_view(hs: Seq<Header>) -> Seq<(Seq<char>, Seq<char>)> {
    hs.map_values(|h: Header| header_view(h))
}

/// Looks up the first header line named `name`.
pub fn header_value(headers: &Vec<Header>, name: &str) -> (r: Option<String>)
    ensures
        match r {
            Some(v) => find_header(headers_view(headers@), name@) == Some(v@),
            None => find_header(headers_view(headers@), name@) == None::<Seq<char>>,
        },
{
    let key = String::from_str(name);
    let ghost all = headers_view(headers@);
    let mut i: usize = 0;
    assert(all.subrange(0, all.len() as int) =~= all);
    while i < headers.len()
        invariant
            i <= headers@.len(),
            all == headers_view(headers@),
            key@ == name@,
            find_header(all, name@) == find_header(all.subrange(i as int, all.len() as int), name@),
        decreases headers@.len() - i,
    {
        let ghost rest = all.subrange(i as int, all.len() as int);
        assert(rest[0] == header_view(headers@[i as int]));
        if headers[i].name == key {
            assert(rest[0].0 == name@);
            return Some(headers[i].value.clone());
        }
        assert(rest.drop_first() =~= all.subrange(i + 1, all.len() as int));
        i = i + 1;
    }
    assert(all.subrange(i as int, all.len() as int).len() == 0);
    None
}

/// Whether an optional text equals the view `v`.
pub open spec fn opt_string_is(r: Option<String>, v: Option<Seq<char>>) -> bool {
    match r {
        Some(s) => v == Some(s@),
        None => v is None,
    }
}

/// Whether `e` reports `received` where `expected` was the success status.
pub open spec fn is_unexpected_status(e: AzureError, expected: u16, received: u16, body: Seq<char>) -> bool {
    match e {
        AzureError::UnexpectedHttpResult { expected: x, received: y, body: b } => x == expected && y
            == received && b@ == body,
        _ => false,
    }
}

/// Passes the body on when `status` is the operation's success status.
pub fn check_status(status: u16, expected: u16, body: String) -> (r: Result<String, AzureError>)
    ensures
        status == expected ==> r == Ok::<String, AzureError>(body),
        status != expected ==> r is Err && is_unexpected_status(r->Err_0, expected, status, body@),
{
    if status == expected {
        Ok(body)
    } else {
        Err(AzureError::UnexpectedHttpResult { expected, received: status, body })
    }
}

} // verus!

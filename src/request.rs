//! Transport-agnostic request descriptors and the client identity they target.
use vstd::prelude::*;

verus! {

/// HTTP method of an assembled request.
#[derive(PartialEq, Eq, Structural, Clone, Copy, Debug)]
pub enum Method {
    Get,
    Put,
}

/// One header line: a lower-case name and its value.
#[derive(Clone, Debug)]
pub struct Header {
    pub name: String,
    pub value: String,
}

/// The mathematical value of a header line.
pub open spec fn header_view(h: Header) -> (Seq<char>, Seq<char>) {
    (h.name@, h.value@)
}

/// A fully assembled request, ready to be signed and sent.
#[derive(Clone, Debug)]
pub struct RequestDescriptor {
    pub method: Method,
    pub uri: String,
    pub headers: Vec<Header>,
    pub body: Option<Vec<u8>>,
}

pub struct DescriptorView {
    pub method: Method,
    pub uri: Seq<char>,
    pub headers: Seq<(Seq<char>, Seq<char>)>,
    pub body: Option<Seq<u8>>,
}

impl View for RequestDescriptor {
    type V = DescriptorView;

    open spec fn view(&self) -> DescriptorView {
        DescriptorView {
            method: self.method,
            uri: self.uri@,
            headers: self.headers@.map_values(|h: Header| header_view(h)),
            body: match self.body {
                Some(b) => Some(b@),
                None => None,
            },
        }
    }
}

/// The storage account that requests are addressed to.
#[derive(Clone, Debug)]
pub struct Client {
    account: String,
}

impl Client {
    pub closed spec fn account_view(&self) -> Seq<char> {
        self.account@
    }

    pub fn new(account: String) -> (r: Client)
        ensures
            r.account_view() == account@,
    {
        Client { account }
    }

    pub fn account(&self) -> (r: &str)
        ensures
            r@ == self.account_view(),
    {
        self.account.as_str()
    }
}

/// Builds a header line from two text values.
pub fn make_header(name: &str, value: &str) -> (r: Header)
    ensures
        header_view(r) == (name@, value@),
{
    Header { name: String::from_str(name), value: String::from_str(value) }
}

/// The view of an optional borrowed text value.
pub open spec fn opt_str_view(o: Option<&str>) -> Option<Seq<char>> {
    match o {
        Some(s) => Some(s@),
        None => None,
    }
}

} // verus!

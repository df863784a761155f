//! Type-level tags recording whether a required parameter has been supplied.
use vstd::prelude::*;

verus! {

/// A presence tag: `Yes` once the parameter is supplied, `No` before.
pub trait ToAssign {
    spec fn assigned() -> bool;
}

/// The parameter has been supplied.
#[derive(Clone, Copy, Debug)]
pub struct Yes;

/// The parameter has not been supplied yet.
#[derive(Clone, Copy, Debug)]
pub struct No;

impl ToAssign for Yes {
    open spec fn assigned() -> bool {
        true
    }
}

impl ToAssign for No {
    open spec fn assigned() -> bool {
        false
    }
}

/// An opaque lease token, as the service issues it.
#[derive(Clone, Debug)]
pub struct LeaseId {
    value: String,
}

impl View for LeaseId {
    type V = Seq<char>;

    closed spec fn view(&self) -> Seq<char> {
        self.value@
    }
}

impl LeaseId {
    pub fn new(value: String) -> (r: LeaseId)
        ensures
            r@ == value@,
    {
        LeaseId { value }
    }

    pub fn as_str(&self) -> (r: &str)
        ensures
            r@ == self@,
    {
        self.value.as_str()
    }
}

} // verus!

//! nginx status codes as a typed value.
use vstd::prelude::*;

use crate::ffi::{ngx_int_t, NGX_ERROR, NGX_OK};

verus! {

/// A status code as nginx handlers return it (`NGX_OK`, `NGX_ERROR`, ...).
#[derive(Clone, Copy, Debug, PartialEq, Eq, Structural)]
pub struct Status(pub ngx_int_t);

impl Status {
    /// The success status, `NGX_OK`.
    pub fn ok() -> (s: Status)
        ensures
            s.0 == NGX_OK,
    {
        Status(NGX_OK)
    }

    /// The generic failure status, `NGX_ERROR`.
    pub fn error() -> (s: Status)
        ensures
            s.0 == NGX_ERROR,
    {
        Status(NGX_ERROR)
    }
}

impl From<Status> for ngx_int_t {
    fn from(status: Status) -> (code: ngx_int_t) {
        status.0
    }
}

impl vstd::std_specs::convert::FromSpecImpl<Status> for ngx_int_t {
    open spec fn obeys_from_spec() -> bool {
        true
    }

    open spec fn from_spec(status: Status) -> ngx_int_t {
        status.0
    }
}

} // verus!

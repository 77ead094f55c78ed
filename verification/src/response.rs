//! The value types of the bridge: a logical request, and a retrieved
//! response with its provenance. Both are immutable after construction, and
//! getters hand out copies so that stored bytes are never externally
//! mutated.

use vstd::prelude::*;
use vstd::slice::*;

verus! {

/// The mathematical content of a retrieved response: the payload bytes, the
/// numeric status code, and the provider tag.
pub ghost struct ResponseModel {
    pub data: Seq<u8>,
    pub status: u16,
    pub provider: Seq<char>,
}

/// A logical request for a remote object: its URL and the HTTP method.
/// Constructed per call and not retained beyond it.
pub struct CloudDataRequest {
    url: String,
    method: String,
}

impl CloudDataRequest {
    pub closed spec fn spec_url(&self) -> Seq<char> {
        self.url@
    }

    pub closed spec fn spec_method(&self) -> Seq<char> {
        self.method@
    }

    pub fn new(url: String, method: String) -> (r: CloudDataRequest)
        ensures
            r.spec_url() == url@,
            r.spec_method() == method@,
    {
        CloudDataRequest { url, method }
    }

    pub fn url(&self) -> (r: String)
        ensures
            r@ == self.spec_url(),
    {
        self.url.clone()
    }

    pub fn method(&self) -> (r: String)
        ensures
            r@ == self.spec_method(),
    {
        self.method.clone()
    }
}

/// A retrieved object as the cache stores it: the payload bytes, the HTTP
/// status that came with them (stored as data, a non-2xx status is not an
/// error), and the tag of the provider that served the URL.
pub struct CloudDataResponse {
    data: Vec<u8>,
    status: u16,
    provider: String,
}

impl View for CloudDataResponse {
    type V = ResponseModel;

    closed spec fn view(&self) -> ResponseModel {
        ResponseModel { data: self.data@, status: self.status, provider: self.provider@ }
    }
}

impl CloudDataResponse {
    pub fn new(data: Vec<u8>, status: u16, provider: String) -> (r: CloudDataResponse)
        ensures
            r@ == (ResponseModel { data: data@, status: status, provider: provider@ }),
    {
        CloudDataResponse { data, status, provider }
    }

    /// A copy of the payload bytes: the stored bytes themselves are never
    /// handed out.
    pub fn data(&self) -> (r: Vec<u8>)
        ensures
            r@ == self@.data,
    {
        slice_to_vec(self.data.as_slice())
    }

    pub fn status(&self) -> (r: u16)
        ensures
            r == self@.status,
    {
        self.status
    }

    pub fn provider(&self) -> (r: String)
        ensures
            r@ == self@.provider,
    {
        self.provider.clone()
    }
}

} // verus!

//! The response value the handler hands back: a status code plus a body of
//! bytes, immutable once built, assembled through a small builder.

use vstd::prelude::*;
use vstd::string::StringSliceAdditionalSpecFns;

verus! {

/// A status code and a body, immutable once built.
#[derive(Debug)]
pub struct Response {
    status: u16,
    body: Vec<u8>,
}

impl Response {
    /// The response's status code.
    pub closed spec fn spec_status(&self) -> u16 {
        self.status
    }

    /// The response's body bytes.
    pub closed spec fn spec_body(&self) -> Seq<u8> {
        self.body@
    }

    pub fn status(&self) -> (s: u16)
        ensures
            s == self.spec_status(),
    {
        self.status
    }

    pub fn body(&self) -> (b: &Vec<u8>)
        ensures
            b@ == self.spec_body(),
    {
        &self.body
    }
}

/// Builds a `Response`; a fresh builder carries the success status 200 and
/// an empty body.
#[derive(Debug)]
pub struct ResponseBuilder {
    status: u16,
    body: Vec<u8>,
}

impl ResponseBuilder {
    pub closed spec fn spec_status(&self) -> u16 {
        self.status
    }

    pub closed spec fn spec_body(&self) -> Seq<u8> {
        self.body@
    }

    pub fn new() -> (b: ResponseBuilder)
        ensures
            b.spec_status() == 200,
            b.spec_body() == Seq::<u8>::empty(),
    {
        ResponseBuilder { status: 200, body: Vec::new() }
    }

    /// Replace the status the built response will carry.
    pub fn status(self, status: u16) -> (b: ResponseBuilder)
        ensures
            b.spec_status() == status,
            b.spec_body() == self.spec_body(),
    {
        ResponseBuilder { status, body: self.body }
    }

    /// Replace the body the built response will carry.
    pub fn body(self, body: Vec<u8>) -> (b: ResponseBuilder)
        ensures
            b.spec_status() == self.spec_status(),
            b.spec_body() == body@,
    {
        ResponseBuilder { status: self.status, body }
    }

    /// Finish: the response carries exactly what was set.
    pub fn build(self) -> (r: Response)
        ensures
            r.spec_status() == self.spec_status(),
            r.spec_body() == self.spec_body(),
    {
        Response { status: self.status, body: self.body }
    }
}

/// Wrap captured interpreter output into the success response: status 200
/// and the output's bytes, nothing added and nothing dropped.
pub fn success_response(output: &str) -> (r: Response)
    ensures
        r.spec_status() == 200,
        r.spec_body() == output.spec_bytes(),
{
    ResponseBuilder::new().status(200).body(output.as_bytes_vec()).build()
}

} // verus!

//! What the gateway answers: a status and, on success, the packages found.

use vstd::prelude::*;

use crate::model::PackageSummary;
use crate::model::SearchResult;

verus! {

/// An HTTP status: a number from 100 to 999.
#[derive(Debug, Clone, Copy, PartialEq, Eq)]
pub struct Status {
    code: u16,
}

impl View for Status {
    type V = u16;

    closed spec fn view(&self) -> u16 {
        self.code
    }
}

impl Status {
    #[verifier::type_invariant]
    spec fn in_range(self) -> bool {
        100 <= self.code <= 999
    }

    /// The status with the number `code`, where there is one.
    pub fn from_u16(code: u16) -> (status: Option<Status>)
        ensures
            status is Some <==> 100 <= code <= 999,
            status matches Some(s) ==> s@ == code,
    {
        if 100 <= code && code <= 999 {
            Some(Status { code })
        } else {
            None
        }
    }

    /// The number of this status.
    pub fn as_u16(&self) -> (code: u16)
        ensures
            code == self@,
            100 <= code <= 999,
    {
        proof {
            use_type_invariant(self);
        }
        self.code
    }

    /// 200, the status of a request that was served.
    pub fn ok() -> (status: Status)
        ensures
            status@ == 200,
    {
        Status { code: 200 }
    }

    /// 500, the status for every failure of the gateway's own.
    pub fn internal_server_error() -> (status: Status)
        ensures
            status@ == 500,
    {
        Status { code: 500 }
    }

    /// Whether this is status 200.
    pub fn is_ok(&self) -> (ok: bool)
        ensures
            ok == (self@ == 200),
    {
        self.code == 200
    }
}

/// The body of an answer.
#[derive(Debug, Clone, PartialEq, Eq)]
pub enum Body {
    /// No body at all.
    Empty,
    /// The packages found, wrapped with their number.
    Packages(SearchResult<Vec<PackageSummary>>),
}

/// An answer of the gateway to its caller.
#[derive(Debug, Clone, PartialEq, Eq)]
pub struct Response {
    pub status: Status,
    pub body: Body,
}

impl Response {
    /// Whether this answer has the status `code` and no body.
    pub open spec fn is_bare(self, code: u16) -> bool {
        self.status@ == code && self.body is Empty
    }

    /// The answer with the given status and no body.
    pub fn bare(status: Status) -> (response: Response)
        ensures
            response.is_bare(status@),
    {
        Response { status, body: Body::Empty }
    }
}

} // verus!

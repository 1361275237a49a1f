//! The ways a request can fail, and the response each is answered with.
//!
//! A fault of the caller is answered with status 400, a refusal of the
//! authorization hook with 401, and trouble on the way upstream with 500.
//! No failure is retried.

use vstd::prelude::*;
use crate::message::{failure_view, Response};

verus! {

/// Why a request was not served.
#[derive(Clone, Copy, Debug, PartialEq, Eq)]
pub enum Failure {
    /// The routing header is missing or does not read as text.
    RoutingHeader,
    /// The cache partition id is missing, does not read as text, or is too
    /// long.
    CacheId,
    /// The routing header names no route.
    UnknownRoute,
    /// The authorization hook refused the caller.
    Unauthorized,
    /// The caller's body could not be read, the upstream call failed, its
    /// reply was not of the expected content type, or an event came out of
    /// turn.
    Upstream,
}

impl Failure {
    /// The status that the failure is answered with.
    pub open spec fn status_of(self) -> u16 {
        match self {
            Failure::RoutingHeader | Failure::CacheId | Failure::UnknownRoute => 400,
            Failure::Unauthorized => 401,
            Failure::Upstream => 500,
        }
    }

    /// The short text that the caller is told.
    pub open spec fn text_of(self) -> Seq<char> {
        match self {
            Failure::RoutingHeader => "Bad Request: missing or malformed x-server header"@,
            Failure::CacheId => "Bad Request: missing or malformed x-cache-id header"@,
            Failure::UnknownRoute => "Bad Request"@,
            Failure::Unauthorized => "Unauthorized"@,
            Failure::Upstream => "Internal Server Error"@,
        }
    }

    /// The status that the failure is answered with.
    pub fn status(&self) -> (status: u16)
        ensures
            status == self.status_of(),
    {
        match self {
            Failure::RoutingHeader => 400,
            Failure::CacheId => 400,
            Failure::UnknownRoute => 400,
            Failure::Unauthorized => 401,
            Failure::Upstream => 500,
        }
    }

    /// The short text that the caller is told.
    pub fn text(&self) -> (text: &'static str)
        ensures
            text@ == self.text_of(),
    {
        match self {
            Failure::RoutingHeader => "Bad Request: missing or malformed x-server header",
            Failure::CacheId => "Bad Request: missing or malformed x-cache-id header",
            Failure::UnknownRoute => "Bad Request",
            Failure::Unauthorized => "Unauthorized",
            Failure::Upstream => "Internal Server Error",
        }
    }

    /// The response that tells the caller of the failure: its status, its
    /// text as the body, and the CORS headers.
    pub fn response(&self) -> (response: Response)
        ensures
            response@ == failure_view(self.status_of(), self.text_of()),
    {
        Response::failure(self.status(), self.text())
    }
}

} // verus!

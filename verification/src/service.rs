//! Talking to the service: where a request goes, and what to make of the
//! status of an answer. The sending itself is left to the caller.

use vstd::prelude::*;

verus! {

/// Address of the public instance of the service.
pub const VALHALLA_PUBLIC_API_URL: &'static str = "https://valhalla1.openstreetmap.de/";

/// What the service can be asked for.
#[derive(Clone, Copy, Debug, PartialEq, Eq, Structural)]
pub enum Endpoint {
    /// A route with its turns.
    Route,
    /// Times and distances between many places.
    Matrix,
    /// Heights along a line.
    Elevation,
    /// The state of the service.
    Status,
}

impl Endpoint {
    /// The segment that is put behind the address of the service.
    pub open spec fn spec_path(self) -> Seq<char> {
        match self {
            Endpoint::Route => "route"@,
            Endpoint::Matrix => "sources_to_targets"@,
            Endpoint::Elevation => "height"@,
            Endpoint::Status => "status"@,
        }
    }

    /// The name by which a log speaks of the request.
    pub open spec fn spec_name(self) -> Seq<char> {
        match self {
            Endpoint::Route => "route"@,
            Endpoint::Matrix => "matrix"@,
            Endpoint::Elevation => "elevation"@,
            Endpoint::Status => "status"@,
        }
    }

    /// The segment that is put behind the address of the service.
    pub fn path(self) -> (path: &'static str)
        ensures
            path@ == self.spec_path(),
    {
        match self {
            Endpoint::Route => "route",
            Endpoint::Matrix => "sources_to_targets",
            Endpoint::Elevation => "height",
            Endpoint::Status => "status",
        }
    }

    /// The name by which a log speaks of the request.
    pub fn name(self) -> (name: &'static str)
        ensures
            name@ == self.spec_name(),
    {
        match self {
            Endpoint::Route => "route",
            Endpoint::Matrix => "matrix",
            Endpoint::Elevation => "elevation",
            Endpoint::Status => "status",
        }
    }
}

/// What to make of an answer, by its status.
#[derive(Clone, Copy, Debug, PartialEq, Eq, Structural)]
pub enum Reply {
    /// The body holds what was asked for.
    Answer,
    /// The request was refused, and the body says why: it holds a
    /// `RemoteError`.
    Refusal,
    /// The service failed, and the body is not read.
    Failure,
}

/// What to make of an answer with the HTTP status `status`: a status from
/// 400 to 499 is a refusal, one from 500 to 599 a failure, any other an
/// answer.
pub open spec fn spec_classify(status: u16) -> Reply {
    if 400 <= status < 500 {
        Reply::Refusal
    } else if 500 <= status < 600 {
        Reply::Failure
    } else {
        Reply::Answer
    }
}

/// What to make of an answer with the HTTP status `status`.
#[verifier::when_used_as_spec(spec_classify)]
pub fn classify(status: u16) -> (reply: Reply)
    ensures
        reply == spec_classify(status),
{
    if 400 <= status && status < 500 {
        Reply::Refusal
    } else if 500 <= status && status < 600 {
        Reply::Failure
    } else {
        Reply::Answer
    }
}

} // verus!

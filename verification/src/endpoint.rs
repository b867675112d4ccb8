//! Names of the API's endpoints, as they are shown to users and in logs.
use vstd::prelude::*;

verus! {

/// The HTTP method type of the `http` crate, carried through unchanged.
#[verifier::external_type_specification]
#[verifier::external_body]
pub struct ExMethod(http::Method);

/// Something that is served under one HTTP method.
pub trait ToMethod {
    fn to_method(&self) -> http::Method;
}

/// Something that names one of the API's endpoints.
pub trait IntoEndpoint {
    fn into_endpoint(self) -> Endpoint;
}

/// The endpoints under `/v0/users`.
#[derive(Debug, Clone, Copy, PartialEq, Eq, Structural)]
pub enum UserEndpoint {
    Token,
}

/// The endpoints under `/v0/organizations`.
#[derive(Debug, Clone, Copy, PartialEq, Eq, Structural)]
pub enum OrgEndpoint {
    Benchmark,
    Branch,
    Perf,
    Ping,
    Project,
    Report,
    Testbed,
    Threshold,
}

/// An endpoint of the API, grouped by the resource that owns it.
#[derive(Debug, Clone, Copy, PartialEq, Eq, Structural)]
pub enum Endpoint {
    User(UserEndpoint),
    Org(OrgEndpoint),
}

/// The text of a user endpoint: its variant's name.
pub open spec fn user_endpoint_text(e: UserEndpoint) -> Seq<char> {
    match e {
        UserEndpoint::Token => "Token"@,
    }
}

/// The text of an organization endpoint: its variant's name.
pub open spec fn org_endpoint_text(e: OrgEndpoint) -> Seq<char> {
    match e {
        OrgEndpoint::Benchmark => "Benchmark"@,
        OrgEndpoint::Branch => "Branch"@,
        OrgEndpoint::Perf => "Perf"@,
        OrgEndpoint::Ping => "Ping"@,
        OrgEndpoint::Project => "Project"@,
        OrgEndpoint::Report => "Report"@,
        OrgEndpoint::Testbed => "Testbed"@,
        OrgEndpoint::Threshold => "Threshold"@,
    }
}

/// The text of an endpoint: a grouped endpoint shows as the endpoint it wraps.
pub open spec fn endpoint_text(e: Endpoint) -> Seq<char> {
    match e {
        Endpoint::User(u) => user_endpoint_text(u),
        Endpoint::Org(o) => org_endpoint_text(o),
    }
}

impl UserEndpoint {
    /// The endpoint's display text.
    pub fn as_str(&self) -> (s: &'static str)
        ensures
            s@ == user_endpoint_text(*self),
    {
        match self {
            UserEndpoint::Token => "Token",
        }
    }
}

impl OrgEndpoint {
    /// The endpoint's display text.
    pub fn as_str(&self) -> (s: &'static str)
        ensures
            s@ == org_endpoint_text(*self),
    {
        match self {
            OrgEndpoint::Benchmark => "Benchmark",
            OrgEndpoint::Branch => "Branch",
            OrgEndpoint::Perf => "Perf",
            OrgEndpoint::Ping => "Ping",
            OrgEndpoint::Project => "Project",
            OrgEndpoint::Report => "Report",
            OrgEndpoint::Testbed => "Testbed",
            OrgEndpoint::Threshold => "Threshold",
        }
    }
}

impl Endpoint {
    /// The endpoint's display text.
    pub fn as_str(&self) -> (s: &'static str)
        ensures
            s@ == endpoint_text(*self),
    {
        match self {
            Endpoint::User(u) => u.as_str(),
            Endpoint::Org(o) => o.as_str(),
        }
    }
}

} // verus!

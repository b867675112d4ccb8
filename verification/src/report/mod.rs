//! The decisions behind the project report endpoints.
//!
//! Each endpoint alternates database work and decisions. The decisions live
//! here as state machines: the caller performs the action that a step returns
//! and hands back the outcome as the next event.
use vstd::prelude::*;
use vstd::arithmetic::power2::pow2;

pub mod delete;
pub mod get;
pub mod list;
pub mod post;

verus! {

/// Path parameters of the report collection: the project, by UUID or slug.
pub struct ProjReportsParams {
    pub project: String,
}

/// Path parameters of one report: the project, and the report's UUID as its
/// 128-bit value.
pub struct ProjReportParams {
    pub project: String,
    pub report: u128,
}

/// How a report listing is sorted.
#[derive(Debug, Clone, Copy, PartialEq, Eq, Structural)]
pub enum ProjReportsSort {
    DateTime,
}

impl Default for ProjReportsSort {
    fn default() -> (sort: Self)
        ensures
            sort == ProjReportsSort::DateTime,
    {
        ProjReportsSort::DateTime
    }
}

/// A sort direction.
#[derive(Debug, Clone, Copy, PartialEq, Eq, Structural)]
pub enum JsonDirection {
    Asc,
    Desc,
}

/// A project permission that a request must hold.
#[derive(Debug, Clone, Copy, PartialEq, Eq, Structural)]
pub enum Permission {
    Create,
    Delete,
}

/// The kind of resource that an error is about.
#[derive(Debug, Clone, Copy, PartialEq, Eq, Structural)]
pub enum Resource {
    Report,
    Version,
    Branch,
}

/// An HTTP method that a report endpoint answers to.
#[derive(Debug, Clone, Copy, PartialEq, Eq, Structural)]
pub enum ReportMethod {
    Get,
    Post,
    Delete,
}

/// The methods that the report collection allows across origins: listing and
/// posting.
pub fn proj_reports_options() -> (methods: Vec<ReportMethod>)
    ensures
        methods@ == seq![ReportMethod::Get, ReportMethod::Post],
{
    vec![ReportMethod::Get, ReportMethod::Post]
}

/// The methods that one report allows across origins: reading and deleting.
pub fn proj_report_options() -> (methods: Vec<ReportMethod>)
    ensures
        methods@ == seq![ReportMethod::Get, ReportMethod::Delete],
{
    vec![ReportMethod::Get, ReportMethod::Delete]
}

/// How a failed step is reported to the client. `E` is the failure that the
/// caller handed back.
pub enum ReportError<E> {
    /// A step that reports its own error: passed on unchanged.
    Passed(E),
    /// The resource could not be found (404).
    NotFound(Resource, E),
    /// The resource could not be written (409).
    Conflict(Resource, E),
    /// Something that must exist is missing: an issue with the server (404).
    Issue(E),
}

/// The HTTP status that a failure is answered with, where the failure does not
/// carry its own: 404 for a missing resource or a report missing right after
/// its creation, 409 for a resource that could not be written.
pub open spec fn error_status<E>(e: ReportError<E>) -> Option<u16> {
    match e {
        ReportError::Passed(_) => None,
        ReportError::NotFound(_, _) => Some(404),
        ReportError::Conflict(_, _) => Some(409),
        ReportError::Issue(_) => Some(404),
    }
}

impl<E> ReportError<E> {
    /// The HTTP status of the failure, unless it carries its own.
    pub fn status(&self) -> (status: Option<u16>)
        ensures
            status == error_status(*self),
    {
        match self {
            ReportError::Passed(_) => None,
            ReportError::NotFound(_, _) => Some(404),
            ReportError::Conflict(_, _) => Some(409),
            ReportError::Issue(_) => Some(404),
        }
    }
}

/// The lower-case hexadecimal digit for `d` in `0..16`.
pub open spec fn hex_char(d: int) -> char {
    if d < 10 {
        (48 + d) as char
    } else {
        (87 + d) as char
    }
}

/// The digit that position `i` of the hyphenated form shows, for positions
/// that are not hyphens.
pub open spec fn hyphenated_digit_index(i: int) -> int {
    if i < 8 {
        i
    } else if i < 13 {
        i - 1
    } else if i < 18 {
        i - 2
    } else if i < 23 {
        i - 3
    } else {
        i - 4
    }
}

/// The `k`th of the 32 hexadecimal digits of `v`, most significant first.
pub open spec fn uuid_nibble(v: u128, k: int) -> int {
    (v as int / pow2((4 * (31 - k)) as nat) as int) % 16
}

/// The hyphenated lower-case text of the UUID whose value is `v`:
/// 8-4-4-4-12 hexadecimal digits, most significant first.
pub open spec fn uuid_hyphenated(v: u128) -> Seq<char> {
    Seq::new(
        36,
        |i: int|
            if i == 8 || i == 13 || i == 18 || i == 23 {
                '-'
            } else {
                hex_char(uuid_nibble(v, hyphenated_digit_index(i)))
            },
    )
}

/// `uuid::Uuid::from_u128` followed by its `Display`: the UUID's text in
/// hyphenated lower case, which the `uuid` crate writes as the 32 hexadecimal
/// digits of the big-endian value in groups of 8-4-4-4-12.
#[verifier::external_body]
pub(crate) fn uuid_text(value: u128) -> (text: String)
    ensures
        text@ == uuid_hyphenated(value),
{
    uuid::Uuid::from_u128(value).to_string()
}

} // verus!

//! Reading one report of a project.
use vstd::prelude::*;

use super::{uuid_hyphenated, uuid_text, ProjReportParams, ReportError, Resource};

verus! {

/// Where a report read stands.
#[derive(Debug, Clone, Copy, PartialEq, Eq, Structural)]
pub enum GetReportState {
    /// Waiting to learn whether the project is public or the user may view it.
    Authorizing,
    /// Waiting for the report among the project's reports.
    FindingReport,
    /// Waiting for the report in JSON form.
    Converting,
    /// The response has been given.
    Done,
}

/// The outcome of the last action, handed back by the caller.
pub enum GetReportEvent<R, E> {
    /// The project's id, if it may be viewed.
    Authorized(Result<i32, E>),
    /// The report's id.
    ReportFound(Result<i32, E>),
    /// The report in JSON form.
    Converted(Result<R, E>),
}

/// What the caller must do next.
pub enum GetReportAction<R, E> {
    /// Check that the project (by UUID or slug) is public or that the user
    /// may view it.
    AuthorizeView { project: String },
    /// Look up the project's report with this UUID text.
    FindReport { project_id: i32, report_uuid: String },
    /// Turn the report into its JSON form.
    Convert { report_id: i32 },
    /// Answer the request.
    Respond(Result<R, ReportError<E>>),
}

/// The read of one report, driven by the caller.
pub struct GetReport {
    /// The UUID text by which the report is looked up.
    pub report_uuid: String,
    pub state: GetReportState,
}

/// Whether `e` is the outcome that state `s` waits for.
pub open spec fn get_accepts<R, E>(s: GetReportState, e: GetReportEvent<R, E>) -> bool {
    match (s, e) {
        (GetReportState::Authorizing, GetReportEvent::Authorized(_)) => true,
        (GetReportState::FindingReport, GetReportEvent::ReportFound(_)) => true,
        (GetReportState::Converting, GetReportEvent::Converted(_)) => true,
        _ => false,
    }
}

/// The state after `e`: success moves on, any failure ends.
pub open spec fn get_transition<R, E>(s: GetReportState, e: GetReportEvent<R, E>) -> GetReportState {
    match e {
        GetReportEvent::Authorized(Ok(_)) => GetReportState::FindingReport,
        GetReportEvent::ReportFound(Ok(_)) => GetReportState::Converting,
        _ => GetReportState::Done,
    }
}

/// The action that follows `e`, for a report looked up by `report_uuid`.
pub open spec fn get_action<R, E>(e: GetReportEvent<R, E>, report_uuid: Seq<char>, a: GetReportAction<R, E>) -> bool {
    match e {
        GetReportEvent::Authorized(Err(x)) => a == GetReportAction::<R, E>::Respond(Err(ReportError::Passed(x))),
        GetReportEvent::Authorized(Ok(p)) => {
            &&& a matches GetReportAction::FindReport { project_id, report_uuid: u }
            &&& project_id == p
            &&& u@ == report_uuid
        },
        GetReportEvent::ReportFound(Err(x)) =>
            a == GetReportAction::<R, E>::Respond(Err(ReportError::NotFound(Resource::Report, x))),
        GetReportEvent::ReportFound(Ok(r)) => a == GetReportAction::<R, E>::Convert { report_id: r },
        GetReportEvent::Converted(Err(x)) => a == GetReportAction::<R, E>::Respond(Err(ReportError::Passed(x))),
        GetReportEvent::Converted(Ok(r)) => a == GetReportAction::<R, E>::Respond(Ok(r)),
    }
}

impl GetReport {
    /// Begins reading the report named by `params`: first the project's
    /// visibility to the user is checked.
    pub fn start<R, E>(params: &ProjReportParams) -> (res: (GetReport, GetReportAction<R, E>))
        ensures
            res.0.state == GetReportState::Authorizing,
            res.0.report_uuid@ == uuid_hyphenated(params.report),
            res.1 == (GetReportAction::<R, E>::AuthorizeView { project: params.project }),
    {
        (
            GetReport { report_uuid: uuid_text(params.report), state: GetReportState::Authorizing },
            GetReportAction::AuthorizeView { project: params.project.clone() },
        )
    }

    /// Whether `event` is the outcome that the read waits for.
    pub fn accepts<R, E>(&self, event: &GetReportEvent<R, E>) -> (r: bool)
        ensures
            r == get_accepts(self.state, *event),
    {
        match (self.state, event) {
            (GetReportState::Authorizing, GetReportEvent::Authorized(_)) => true,
            (GetReportState::FindingReport, GetReportEvent::ReportFound(_)) => true,
            (GetReportState::Converting, GetReportEvent::Converted(_)) => true,
            _ => false,
        }
    }

    /// Takes the outcome of the last action and returns the next one.
    pub fn step<R, E>(&mut self, event: GetReportEvent<R, E>) -> (action: GetReportAction<R, E>)
        requires
            get_accepts(old(self).state, event),
        ensures
            final(self).report_uuid == old(self).report_uuid,
            final(self).state == get_transition(old(self).state, event),
            get_action(event, old(self).report_uuid@, action),
    {
        match event {
            GetReportEvent::Authorized(Err(x)) => {
                self.state = GetReportState::Done;
                GetReportAction::Respond(Err(ReportError::Passed(x)))
            },
            GetReportEvent::Authorized(Ok(project_id)) => {
                self.state = GetReportState::FindingReport;
                GetReportAction::FindReport { project_id, report_uuid: self.report_uuid.clone() }
            },
            GetReportEvent::ReportFound(Err(x)) => {
                self.state = GetReportState::Done;
                GetReportAction::Respond(Err(ReportError::NotFound(Resource::Report, x)))
            },
            GetReportEvent::ReportFound(Ok(report_id)) => {
                self.state = GetReportState::Converting;
                GetReportAction::Convert { report_id }
            },
            GetReportEvent::Converted(Err(x)) => {
                self.state = GetReportState::Done;
                GetReportAction::Respond(Err(ReportError::Passed(x)))
            },
            GetReportEvent::Converted(Ok(report)) => {
                self.state = GetReportState::Done;
                GetReportAction::Respond(Ok(report))
            },
        }
    }
}

} // verus!

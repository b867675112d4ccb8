//! Deleting a report, and with it a code version that no report uses any more.
use vstd::prelude::*;

use super::{uuid_text, Permission, ProjReportParams, ReportError, Resource};

verus! {

/// The versions among `rows` (pairs of version id and version number) that
/// are numbered above `floor`; a version listed twice keeps its last number.
pub open spec fn greater_versions(rows: Seq<(i32, u32)>, floor: u32) -> Map<i32, u32>
    decreases rows.len(),
{
    if rows.len() == 0 {
        Map::empty()
    } else {
        let m = greater_versions(rows.drop_last(), floor);
        let row = rows.last();
        if row.1 > floor {
            m.insert(row.0, row.1)
        } else {
            m
        }
    }
}

/// The map that a sequence of (key, value) pairs describes; a later pair wins.
pub open spec fn pairs_map(s: Seq<(i32, u32)>) -> Map<i32, u32>
    decreases s.len(),
{
    if s.len() == 0 {
        Map::empty()
    } else {
        pairs_map(s.drop_last()).insert(s.last().0, s.last().1)
    }
}

/// No key occurs twice among the pairs.
pub open spec fn distinct_keys(s: Seq<(i32, u32)>) -> bool {
    forall|i: int, j: int| 0 <= i < j < s.len() ==> #[trigger] s[i].0 != #[trigger] s[j].0
}

/// Every version number lowered by one.
pub open spec fn decremented(m: Map<i32, u32>) -> Map<i32, u32> {
    Map::new(|k: i32| m.dom().contains(k), |k: i32| (m[k] - 1) as u32)
}

proof fn lemma_pairs_map_update(s: Seq<(i32, u32)>, j: int, v: u32)
    requires
        distinct_keys(s),
        0 <= j < s.len(),
    ensures
        pairs_map(s.update(j, (s[j].0, v))) =~= pairs_map(s).insert(s[j].0, v),
    decreases s.len(),
{
    let k = s[j].0;
    let t = s.update(j, (k, v));
    if j == s.len() - 1 {
        assert(t.drop_last() =~= s.drop_last());
    } else {
        assert(t.drop_last() =~= s.drop_last().update(j, (k, v)));
        assert(s.last().0 != k);
        lemma_pairs_map_update(s.drop_last(), j, v);
    }
}

/// The renumbering that deleting a version calls for: every version among
/// `rows` numbered above the deleted version's `number` moves down by one.
/// Each version appears once in the plan.
pub fn decrement_plan(number: u32, rows: &Vec<(i32, u32)>) -> (plan: Vec<(i32, u32)>)
    ensures
        distinct_keys(plan@),
        pairs_map(plan@) == decremented(greater_versions(rows@, number)),
{
    let mut plan: Vec<(i32, u32)> = Vec::new();
    let mut i: usize = 0;
    assert(rows@.take(0) =~= Seq::<(i32, u32)>::empty());
    assert(decremented(Map::empty()) =~= Map::<i32, u32>::empty());
    while i < rows.len()
        invariant
            i <= rows.len(),
            distinct_keys(plan@),
            pairs_map(plan@) == decremented(greater_versions(rows@.take(i as int), number)),
        decreases rows.len() - i,
    {
        let (id, n) = rows[i];
        let ghost before = greater_versions(rows@.take(i as int), number);
        assert(rows@.take(i as int + 1).drop_last() =~= rows@.take(i as int));
        assert(rows@.take(i as int + 1).last() == (id, n));
        if n > number {
            assert(decremented(before.insert(id, n)) =~= decremented(before).insert(id, (n - 1) as u32));
            let mut j: usize = 0;
            while j < plan.len()
                invariant
                    j <= plan.len(),
                    forall|x: int| 0 <= x < j ==> #[trigger] plan@[x].0 != id,
                ensures
                    j <= plan.len(),
                    j < plan.len() ==> plan@[j as int].0 == id,
                    forall|x: int| 0 <= x < j ==> #[trigger] plan@[x].0 != id,
                decreases plan.len() - j,
            {
                if plan[j].0 == id {
                    break;
                }
                j = j + 1;
            }
            if j < plan.len() {
                proof {
                    lemma_pairs_map_update(plan@, j as int, (n - 1) as u32);
                }
                plan.set(j, (id, n - 1));
            } else {
                let ghost old_plan = plan@;
                plan.push((id, n - 1));
                assert(plan@.drop_last() =~= old_plan);
            }
        }
        i = i + 1;
    }
    assert(rows@.take(rows.len() as int) =~= rows@);
    plan
}

/// Where a report deletion stands.
#[derive(Debug, Clone, Copy, PartialEq, Eq, Structural)]
pub enum DeleteReportState {
    /// Waiting to learn whether the user may delete in the project.
    Authorizing,
    /// Waiting for the report's id and code version.
    FindingReport,
    /// Waiting for the report row to be deleted.
    DeletingReport { version_id: i32 },
    /// Waiting for the number of reports that still use the version.
    CountingReports { version_id: i32 },
    /// The version is unused: waiting for its number.
    LoadingVersion { version_id: i32 },
    /// Waiting for the branches that hold the version.
    LoadingBranches { version_id: i32, number: u32 },
    /// Waiting for those branches' versions numbered above it.
    LoadingGreaterVersions { version_id: i32, number: u32 },
    /// Waiting for the greater versions to be renumbered.
    Decrementing { version_id: i32 },
    /// Waiting for the unused version to be deleted.
    DeletingVersion { version_id: i32 },
    /// The response has been given.
    Done,
}

/// The outcome of the last action, handed back by the caller.
pub enum DeleteReportEvent<E> {
    /// The project's id, if the user may delete in it.
    Authorized(Result<i32, E>),
    /// The report's id and its code version's id.
    ReportFound(Result<(i32, i32), E>),
    ReportDeleted(Result<(), E>),
    /// How many reports still use the version.
    ReportsCounted(Result<i64, E>),
    /// The version's number.
    VersionLoaded(Result<u32, E>),
    /// The branches that hold the version.
    BranchesLoaded(Result<Vec<i32>, E>),
    /// For every such branch in turn, its versions numbered above the deleted
    /// one, as (version id, version number).
    GreaterVersionsLoaded(Result<Vec<(i32, u32)>, E>),
    /// The renumbering was attempted; a failed update does not stop the deletion.
    VersionsDecremented,
    VersionDeleted(Result<(), E>),
}

/// What the caller must do next.
pub enum DeleteReportAction<E> {
    /// Check that the user holds the permission in the project (by UUID or
    /// slug).
    Authorize { project: String, permission: Permission },
    /// Look up the project's report with this UUID text.
    FindReport { project_id: i32, report_uuid: String },
    DeleteReport { report_id: i32 },
    /// Count the reports that use the version.
    CountReports { version_id: i32 },
    LoadVersion { version_id: i32 },
    /// List the branches that hold the version.
    LoadBranches { version_id: i32 },
    /// For each branch, list its versions numbered above `number`.
    LoadGreaterVersions { branches: Vec<i32>, number: u32 },
    /// Give each listed version its new number.
    DecrementVersions { plan: Vec<(i32, u32)> },
    DeleteVersion { version_id: i32 },
    /// Answer the request.
    Respond(Result<(), ReportError<E>>),
}

/// The deletion of one report, driven by the caller.
pub struct DeleteReport {
    /// The UUID text by which the report is looked up.
    pub report_uuid: String,
    pub state: DeleteReportState,
}

/// Whether `e` is the outcome that state `s` waits for.
pub open spec fn delete_accepts<E>(s: DeleteReportState, e: DeleteReportEvent<E>) -> bool {
    match (s, e) {
        (DeleteReportState::Authorizing, DeleteReportEvent::Authorized(_)) => true,
        (DeleteReportState::FindingReport, DeleteReportEvent::ReportFound(_)) => true,
        (DeleteReportState::DeletingReport { .. }, DeleteReportEvent::ReportDeleted(_)) => true,
        (DeleteReportState::CountingReports { .. }, DeleteReportEvent::ReportsCounted(_)) => true,
        (DeleteReportState::LoadingVersion { .. }, DeleteReportEvent::VersionLoaded(_)) => true,
        (DeleteReportState::LoadingBranches { .. }, DeleteReportEvent::BranchesLoaded(_)) => true,
        (
            DeleteReportState::LoadingGreaterVersions { .. },
            DeleteReportEvent::GreaterVersionsLoaded(_),
        ) => true,
        (DeleteReportState::Decrementing { .. }, DeleteReportEvent::VersionsDecremented) => true,
        (DeleteReportState::DeletingVersion { .. }, DeleteReportEvent::VersionDeleted(_)) => true,
        _ => false,
    }
}

/// The state after `e` in state `s`: success moves on, any failure ends.
pub open spec fn delete_transition<E>(s: DeleteReportState, e: DeleteReportEvent<E>) -> DeleteReportState {
    match (s, e) {
        (DeleteReportState::Authorizing, DeleteReportEvent::Authorized(Ok(_))) => DeleteReportState::FindingReport,
        (DeleteReportState::FindingReport, DeleteReportEvent::ReportFound(Ok((_, v)))) =>
            DeleteReportState::DeletingReport { version_id: v },
        (DeleteReportState::DeletingReport { version_id }, DeleteReportEvent::ReportDeleted(Ok(_))) =>
            DeleteReportState::CountingReports { version_id },
        (DeleteReportState::CountingReports { version_id }, DeleteReportEvent::ReportsCounted(Ok(n))) =>
            if n == 0 {
                DeleteReportState::LoadingVersion { version_id }
            } else {
                DeleteReportState::Done
            },
        (DeleteReportState::LoadingVersion { version_id }, DeleteReportEvent::VersionLoaded(Ok(number))) =>
            DeleteReportState::LoadingBranches { version_id, number },
        (
            DeleteReportState::LoadingBranches { version_id, number },
            DeleteReportEvent::BranchesLoaded(Ok(_)),
        ) => DeleteReportState::LoadingGreaterVersions { version_id, number },
        (
            DeleteReportState::LoadingGreaterVersions { version_id, .. },
            DeleteReportEvent::GreaterVersionsLoaded(Ok(_)),
        ) => DeleteReportState::Decrementing { version_id },
        (DeleteReportState::Decrementing { version_id }, DeleteReportEvent::VersionsDecremented) =>
            DeleteReportState::DeletingVersion { version_id },
        _ => DeleteReportState::Done,
    }
}

/// The action that follows `e` in state `s`, for a report looked up by
/// `report_uuid`.
pub open spec fn delete_action<E>(
    s: DeleteReportState,
    e: DeleteReportEvent<E>,
    report_uuid: Seq<char>,
    a: DeleteReportAction<E>,
) -> bool {
    match (s, e) {
        (_, DeleteReportEvent::Authorized(Err(x))) => a == DeleteReportAction::Respond(Err(ReportError::Passed(x))),
        (_, DeleteReportEvent::Authorized(Ok(p))) => {
            &&& a matches DeleteReportAction::FindReport { project_id, report_uuid: u }
            &&& project_id == p
            &&& u@ == report_uuid
        },
        (_, DeleteReportEvent::ReportFound(Err(x))) =>
            a == DeleteReportAction::<E>::Respond(Err(ReportError::NotFound(Resource::Report, x))),
        (_, DeleteReportEvent::ReportFound(Ok((r, _)))) => a == DeleteReportAction::<E>::DeleteReport { report_id: r },
        (_, DeleteReportEvent::ReportDeleted(Err(x))) =>
            a == DeleteReportAction::<E>::Respond(Err(ReportError::Conflict(Resource::Report, x))),
        (DeleteReportState::DeletingReport { version_id }, DeleteReportEvent::ReportDeleted(Ok(_))) =>
            a == DeleteReportAction::<E>::CountReports { version_id },
        (_, DeleteReportEvent::ReportsCounted(Err(x))) =>
            a == DeleteReportAction::<E>::Respond(Err(ReportError::NotFound(Resource::Version, x))),
        (DeleteReportState::CountingReports { version_id }, DeleteReportEvent::ReportsCounted(Ok(n))) =>
            if n == 0 {
                a == DeleteReportAction::<E>::LoadVersion { version_id }
            } else {
                a == DeleteReportAction::<E>::Respond(Ok(()))
            },
        (_, DeleteReportEvent::VersionLoaded(Err(x))) => a == DeleteReportAction::Respond(Err(ReportError::Passed(x))),
        (DeleteReportState::LoadingVersion { version_id }, DeleteReportEvent::VersionLoaded(Ok(_))) =>
            a == DeleteReportAction::<E>::LoadBranches { version_id },
        (_, DeleteReportEvent::BranchesLoaded(Err(x))) =>
            a == DeleteReportAction::<E>::Respond(Err(ReportError::NotFound(Resource::Branch, x))),
        (DeleteReportState::LoadingBranches { number, .. }, DeleteReportEvent::BranchesLoaded(Ok(bs))) => {
            &&& a matches DeleteReportAction::LoadGreaterVersions { branches, number: n }
            &&& branches@ == bs@
            &&& n == number
        },
        (_, DeleteReportEvent::GreaterVersionsLoaded(Err(x))) =>
            a == DeleteReportAction::<E>::Respond(Err(ReportError::NotFound(Resource::Version, x))),
        (
            DeleteReportState::LoadingGreaterVersions { number, .. },
            DeleteReportEvent::GreaterVersionsLoaded(Ok(rows)),
        ) => {
            &&& a matches DeleteReportAction::DecrementVersions { plan }
            &&& distinct_keys(plan@)
            &&& pairs_map(plan@) == decremented(greater_versions(rows@, number))
        },
        (DeleteReportState::Decrementing { version_id }, DeleteReportEvent::VersionsDecremented) =>
            a == DeleteReportAction::<E>::DeleteVersion { version_id },
        (_, DeleteReportEvent::VersionDeleted(Err(x))) =>
            a == DeleteReportAction::<E>::Respond(Err(ReportError::Conflict(Resource::Version, x))),
        (_, DeleteReportEvent::VersionDeleted(Ok(_))) => a == DeleteReportAction::<E>::Respond(Ok(())),
        _ => false,
    }
}

impl DeleteReport {
    /// Begins deleting the report named by `params`: first the user's
    /// permission to delete in the project is checked.
    pub fn start<E>(params: &ProjReportParams) -> (res: (DeleteReport, DeleteReportAction<E>))
        ensures
            res.0.state == DeleteReportState::Authorizing,
            res.0.report_uuid@ == super::uuid_hyphenated(params.report),
            res.1 == (DeleteReportAction::<E>::Authorize { project: params.project, permission: Permission::Delete }),
    {
        (
            DeleteReport { report_uuid: uuid_text(params.report), state: DeleteReportState::Authorizing },
            DeleteReportAction::Authorize { project: params.project.clone(), permission: Permission::Delete },
        )
    }

    /// Whether `event` is the outcome that the deletion waits for.
    pub fn accepts<E>(&self, event: &DeleteReportEvent<E>) -> (r: bool)
        ensures
            r == delete_accepts(self.state, *event),
    {
        match (self.state, event) {
            (DeleteReportState::Authorizing, DeleteReportEvent::Authorized(_)) => true,
            (DeleteReportState::FindingReport, DeleteReportEvent::ReportFound(_)) => true,
            (DeleteReportState::DeletingReport { .. }, DeleteReportEvent::ReportDeleted(_)) => true,
            (DeleteReportState::CountingReports { .. }, DeleteReportEvent::ReportsCounted(_)) => true,
            (DeleteReportState::LoadingVersion { .. }, DeleteReportEvent::VersionLoaded(_)) => true,
            (DeleteReportState::LoadingBranches { .. }, DeleteReportEvent::BranchesLoaded(_)) => true,
            (
                DeleteReportState::LoadingGreaterVersions { .. },
                DeleteReportEvent::GreaterVersionsLoaded(_),
            ) => true,
            (DeleteReportState::Decrementing { .. }, DeleteReportEvent::VersionsDecremented) => true,
            (DeleteReportState::DeletingVersion { .. }, DeleteReportEvent::VersionDeleted(_)) => true,
            _ => false,
        }
    }

    /// Takes the outcome of the last action and returns the next one.
    pub fn step<E>(&mut self, event: DeleteReportEvent<E>) -> (action: DeleteReportAction<E>)
        requires
            delete_accepts(old(self).state, event),
        ensures
            final(self).report_uuid == old(self).report_uuid,
            final(self).state == delete_transition(old(self).state, event),
            delete_action(old(self).state, event, old(self).report_uuid@, action),
    {
        let state = self.state;
        match event {
            DeleteReportEvent::Authorized(Err(x)) => {
                self.state = DeleteReportState::Done;
                DeleteReportAction::Respond(Err(ReportError::Passed(x)))
            },
            DeleteReportEvent::Authorized(Ok(project_id)) => {
                self.state = DeleteReportState::FindingReport;
                DeleteReportAction::FindReport { project_id, report_uuid: self.report_uuid.clone() }
            },
            DeleteReportEvent::ReportFound(Err(x)) => {
                self.state = DeleteReportState::Done;
                DeleteReportAction::Respond(Err(ReportError::NotFound(Resource::Report, x)))
            },
            DeleteReportEvent::ReportFound(Ok((report_id, version_id))) => {
                self.state = DeleteReportState::DeletingReport { version_id };
                DeleteReportAction::DeleteReport { report_id }
            },
            DeleteReportEvent::ReportDeleted(Err(x)) => {
                self.state = DeleteReportState::Done;
                DeleteReportAction::Respond(Err(ReportError::Conflict(Resource::Report, x)))
            },
            DeleteReportEvent::ReportDeleted(Ok(())) => match state {
                DeleteReportState::DeletingReport { version_id } => {
                    self.state = DeleteReportState::CountingReports { version_id };
                    DeleteReportAction::CountReports { version_id }
                },
                _ => {
                    proof { assert(false); }
                    DeleteReportAction::Respond(Ok(()))
                },
            },
            DeleteReportEvent::ReportsCounted(Err(x)) => {
                self.state = DeleteReportState::Done;
                DeleteReportAction::Respond(Err(ReportError::NotFound(Resource::Version, x)))
            },
            DeleteReportEvent::ReportsCounted(Ok(count)) => match state {
                DeleteReportState::CountingReports { version_id } => {
                    if count == 0 {
                        self.state = DeleteReportState::LoadingVersion { version_id };
                        DeleteReportAction::LoadVersion { version_id }
                    } else {
                        self.state = DeleteReportState::Done;
                        DeleteReportAction::Respond(Ok(()))
                    }
                },
                _ => {
                    proof { assert(false); }
                    DeleteReportAction::Respond(Ok(()))
                },
            },
            DeleteReportEvent::VersionLoaded(Err(x)) => {
                self.state = DeleteReportState::Done;
                DeleteReportAction::Respond(Err(ReportError::Passed(x)))
            },
            DeleteReportEvent::VersionLoaded(Ok(number)) => match state {
                DeleteReportState::LoadingVersion { version_id } => {
                    self.state = DeleteReportState::LoadingBranches { version_id, number };
                    DeleteReportAction::LoadBranches { version_id }
                },
                _ => {
                    proof { assert(false); }
                    DeleteReportAction::Respond(Ok(()))
                },
            },
            DeleteReportEvent::BranchesLoaded(Err(x)) => {
                self.state = DeleteReportState::Done;
                DeleteReportAction::Respond(Err(ReportError::NotFound(Resource::Branch, x)))
            },
            DeleteReportEvent::BranchesLoaded(Ok(branches)) => match state {
                DeleteReportState::LoadingBranches { version_id, number } => {
                    self.state = DeleteReportState::LoadingGreaterVersions { version_id, number };
                    DeleteReportAction::LoadGreaterVersions { branches, number }
                },
                _ => {
                    proof { assert(false); }
                    DeleteReportAction::Respond(Ok(()))
                },
            },
            DeleteReportEvent::GreaterVersionsLoaded(Err(x)) => {
                self.state = DeleteReportState::Done;
                DeleteReportAction::Respond(Err(ReportError::NotFound(Resource::Version, x)))
            },
            DeleteReportEvent::GreaterVersionsLoaded(Ok(rows)) => match state {
                DeleteReportState::LoadingGreaterVersions { version_id, number } => {
                    self.state = DeleteReportState::Decrementing { version_id };
                    DeleteReportAction::DecrementVersions { plan: decrement_plan(number, &rows) }
                },
                _ => {
                    proof { assert(false); }
                    DeleteReportAction::Respond(Ok(()))
                },
            },
            DeleteReportEvent::VersionsDecremented => match state {
                DeleteReportState::Decrementing { version_id } => {
                    self.state = DeleteReportState::DeletingVersion { version_id };
                    DeleteReportAction::DeleteVersion { version_id }
                },
                _ => {
                    proof { assert(false); }
                    DeleteReportAction::Respond(Ok(()))
                },
            },
            DeleteReportEvent::VersionDeleted(Err(x)) => {
                self.state = DeleteReportState::Done;
                DeleteReportAction::Respond(Err(ReportError::Conflict(Resource::Version, x)))
            },
            DeleteReportEvent::VersionDeleted(Ok(())) => {
                self.state = DeleteReportState::Done;
                DeleteReportAction::Respond(Ok(()))
            },
        }
    }
}

/// The state reached from `s` after the outcomes `events`, in order.
pub open spec fn delete_run<E>(s: DeleteReportState, events: Seq<DeleteReportEvent<E>>) -> DeleteReportState
    decreases events.len(),
{
    if events.len() == 0 {
        s
    } else {
        delete_transition(delete_run(s, events.drop_last()), events.last())
    }
}

/// The states in which the deleted report's version is being renumbered or
/// removed.
pub open spec fn handling_unused_version(s: DeleteReportState) -> bool {
    ||| s is LoadingVersion
    ||| s is LoadingBranches
    ||| s is LoadingGreaterVersions
    ||| s is Decrementing
    ||| s is DeletingVersion
}

/// The outcome that the report row was deleted.
pub open spec fn report_deleted<E>(e: DeleteReportEvent<E>) -> bool {
    e matches DeleteReportEvent::ReportDeleted(Ok(_))
}

/// The outcome that no report uses the version any more.
pub open spec fn counted_zero<E>(e: DeleteReportEvent<E>) -> bool {
    e matches DeleteReportEvent::ReportsCounted(Ok(0))
}

/// The report was deleted, and after that the count of reports that still use
/// its version came back zero.
pub open spec fn version_seen_unused<E>(events: Seq<DeleteReportEvent<E>>) -> bool {
    exists|i: int, j: int|
        0 <= i < j < events.len() && report_deleted(#[trigger] events[i])
            && counted_zero(#[trigger] events[j])
}

proof fn lemma_seen_unused_extends<E>(events: Seq<DeleteReportEvent<E>>)
    requires
        events.len() > 0,
        version_seen_unused(events.drop_last()),
    ensures
        version_seen_unused(events),
{
    let p = events.drop_last();
    let (i, j) = choose|i: int, j: int|
        0 <= i < j < p.len() && report_deleted(#[trigger] p[i])
            && counted_zero(#[trigger] p[j]);
    assert(events[i] == p[i] && events[j] == p[j]);
}

/// Every run that has passed its report's deletion.
proof fn lemma_counting_after_report_deleted<E>(events: Seq<DeleteReportEvent<E>>)
    ensures
        delete_run(DeleteReportState::Authorizing, events) is CountingReports ==> exists|i: int|
            0 <= i < events.len() && report_deleted(#[trigger] events[i]),
    decreases events.len(),
{
    if events.len() > 0 {
        let p = events.drop_last();
        lemma_counting_after_report_deleted(p);
        if delete_run(DeleteReportState::Authorizing, events) is CountingReports {
            let s = delete_run(DeleteReportState::Authorizing, p);
            if s is CountingReports {
                let i = choose|i: int| 0 <= i < p.len() && report_deleted(#[trigger] p[i]);
                assert(events[i] == p[i]);
            } else {
                assert(report_deleted(events[events.len() - 1]));
            }
        }
    }
}

/// A report's code version is renumbered around and deleted only after the
/// report itself was deleted and no report was left using the version: every
/// state of a run from the start that handles the unused version follows a
/// successful report deletion and, after it, a count of zero.
pub proof fn law_version_removed_only_when_unused<E>(events: Seq<DeleteReportEvent<E>>)
    ensures
        handling_unused_version(delete_run(DeleteReportState::Authorizing, events))
            ==> version_seen_unused(events),
    decreases events.len(),
{
    if events.len() > 0 {
        let p = events.drop_last();
        law_version_removed_only_when_unused(p);
        let s = delete_run(DeleteReportState::Authorizing, p);
        if handling_unused_version(delete_run(DeleteReportState::Authorizing, events)) {
            if handling_unused_version(s) {
                lemma_seen_unused_extends(events);
            } else {
                assert(s is CountingReports);
                lemma_counting_after_report_deleted(p);
                let i = choose|i: int| 0 <= i < p.len() && report_deleted(#[trigger] p[i]);
                assert(events[i] == p[i]);
                assert(counted_zero(events[events.len() - 1]));
            }
        }
    }
}

/// An unused version is deleted only once the versions above it have been
/// renumbered: a run from the start that is about to delete the version got
/// there by the renumbering's outcome, after the count came back zero.
pub proof fn law_renumbering_precedes_version_deletion<E>(events: Seq<DeleteReportEvent<E>>)
    ensures
        delete_run(DeleteReportState::Authorizing, events) is DeletingVersion ==> {
            &&& events.len() > 0
            &&& events.last() matches DeleteReportEvent::VersionsDecremented
            &&& version_seen_unused(events)
        },
{
    law_version_removed_only_when_unused(events);
}

/// A version that no report uses any more is renumbered around and deleted:
/// once the count of its reports comes back zero, successful steps lead to
/// its deletion, and a version still in use ends the request at once.
pub proof fn law_unused_version_is_deleted<E>(
    version_id: i32,
    number: u32,
    branches: Vec<i32>,
    rows: Vec<(i32, u32)>,
    in_use: i64,
)
    requires
        in_use != 0,
    ensures
        ({
            let s1 = delete_transition(
                DeleteReportState::CountingReports { version_id },
                DeleteReportEvent::<E>::ReportsCounted(Ok(0)),
            );
            let s2 = delete_transition(s1, DeleteReportEvent::<E>::VersionLoaded(Ok(number)));
            let s3 = delete_transition(s2, DeleteReportEvent::<E>::BranchesLoaded(Ok(branches)));
            let s4 = delete_transition(s3, DeleteReportEvent::<E>::GreaterVersionsLoaded(Ok(rows)));
            let s5 = delete_transition(s4, DeleteReportEvent::<E>::VersionsDecremented);
            &&& s1 == DeleteReportState::LoadingVersion { version_id }
            &&& delete_accepts(s1, DeleteReportEvent::<E>::VersionLoaded(Ok(number)))
            &&& delete_accepts(s2, DeleteReportEvent::<E>::BranchesLoaded(Ok(branches)))
            &&& delete_accepts(s3, DeleteReportEvent::<E>::GreaterVersionsLoaded(Ok(rows)))
            &&& delete_accepts(s4, DeleteReportEvent::<E>::VersionsDecremented)
            &&& delete_action(s4, DeleteReportEvent::<E>::VersionsDecremented, Seq::empty(),
                DeleteReportAction::<E>::DeleteVersion { version_id })
            &&& s5 == DeleteReportState::DeletingVersion { version_id }
            &&& delete_accepts(s5, DeleteReportEvent::<E>::VersionDeleted(Ok(())))
            &&& delete_action(s5, DeleteReportEvent::<E>::VersionDeleted(Ok(())), Seq::empty(),
                DeleteReportAction::<E>::Respond(Ok(())))
        }),
        delete_transition(
            DeleteReportState::CountingReports { version_id },
            DeleteReportEvent::<E>::ReportsCounted(Ok(in_use)),
        ) == DeleteReportState::Done,
        delete_action(
            DeleteReportState::CountingReports { version_id },
            DeleteReportEvent::<E>::ReportsCounted(Ok(in_use)),
            Seq::empty(),
            DeleteReportAction::<E>::Respond(Ok(())),
        ),
{
}

/// A permitted deletion of an existing report goes on to that report: once
/// the user may delete in project `p`, the report is looked up by its UUID in
/// `p`; once it is found as report `r` on version `v`, row `r` is deleted;
/// once that is done, the reports left on `v` are counted. Each of these
/// outcomes is the one the deletion waits for at that point.
pub proof fn law_permitted_deletion_proceeds<E>(p: i32, r: i32, v: i32, report_uuid: Seq<char>, a: DeleteReportAction<E>)
    ensures
        ({
            let s0 = DeleteReportState::Authorizing;
            let e1 = DeleteReportEvent::<E>::Authorized(Ok(p));
            let s1 = delete_transition(s0, e1);
            let e2 = DeleteReportEvent::<E>::ReportFound(Ok((r, v)));
            let s2 = delete_transition(s1, e2);
            let e3 = DeleteReportEvent::<E>::ReportDeleted(Ok(()));
            let s3 = delete_transition(s2, e3);
            &&& delete_accepts(s0, e1)
            &&& (delete_action(s0, e1, report_uuid, a) ==> {
                &&& a matches DeleteReportAction::FindReport { project_id, report_uuid: u }
                &&& project_id == p
                &&& u@ == report_uuid
            })
            &&& delete_accepts(s1, e2)
            &&& delete_action(s1, e2, report_uuid, DeleteReportAction::<E>::DeleteReport { report_id: r })
            &&& delete_accepts(s2, e3)
            &&& delete_action(s2, e3, report_uuid, DeleteReportAction::<E>::CountReports { version_id: v })
            &&& s3 == DeleteReportState::CountingReports { version_id: v }
            &&& delete_accepts(s3, DeleteReportEvent::<E>::ReportsCounted(Ok(0)))
        }),
{
}

/// The numbers of a branch's versions (version id to version number) run
/// from 1 to `n` with no gap and no number taken twice.
pub open spec fn gap_free(numbers: Map<i32, u32>, n: int) -> bool {
    &&& forall|id: i32| #[trigger] numbers.dom().contains(id) ==> 1 <= numbers[id] <= n
    &&& forall|a: i32, b: i32|
        #[trigger] numbers.dom().contains(a) && #[trigger] numbers.dom().contains(b) && a != b
            ==> numbers[a] != numbers[b]
    &&& forall|j: int| 1 <= j <= n ==> #[trigger] number_taken(numbers, j)
}

/// Some version has number `j`.
pub open spec fn number_taken(numbers: Map<i32, u32>, j: int) -> bool {
    exists|id: i32| #[trigger] numbers.dom().contains(id) && numbers[id] == j
}

/// A branch's version numbers once version `deleted` is gone and the plan
/// `plan` (version id to new number) is applied.
pub open spec fn renumbered(numbers: Map<i32, u32>, deleted: i32, plan: Map<i32, u32>) -> Map<i32, u32> {
    Map::new(
        |id: i32| numbers.dom().contains(id) && id != deleted,
        |id: i32| if plan.dom().contains(id) { plan[id] } else { numbers[id] },
    )
}

proof fn lemma_greater_versions_entries(rows: Seq<(i32, u32)>, floor: u32, id: i32)
    ensures
        greater_versions(rows, floor).dom().contains(id) ==> exists|i: int|
            0 <= i < rows.len() && #[trigger] rows[i] == (id, greater_versions(rows, floor)[id]) && rows[i].1 > floor,
        (exists|i: int| 0 <= i < rows.len() && #[trigger] rows[i].0 == id && rows[i].1 > floor)
            ==> greater_versions(rows, floor).dom().contains(id),
    decreases rows.len(),
{
    if rows.len() > 0 {
        let p = rows.drop_last();
        lemma_greater_versions_entries(p, floor, id);
        let n = rows.len() - 1;
        if greater_versions(rows, floor).dom().contains(id) {
            if !(rows[n].0 == id && rows[n].1 > floor) {
                let i = choose|i: int| 0 <= i < p.len() && #[trigger] p[i] == (id, greater_versions(p, floor)[id]) && p[i].1 > floor;
                assert(rows[i] == p[i]);
            }
        }
        if exists|i: int| 0 <= i < rows.len() && #[trigger] rows[i].0 == id && rows[i].1 > floor {
            let i = choose|i: int| 0 <= i < rows.len() && #[trigger] rows[i].0 == id && rows[i].1 > floor;
            if i < n {
                assert(p[i] == rows[i]);
            }
        }
    }
}

/// Deleting a version keeps the numbering of every branch that held it free
/// of gaps: where a branch's versions `numbers` run from 1 to `n`, `rows`
/// lists every version of the branch numbered above the deleted one (rows of
/// other branches may follow, and a version's number is the same in every
/// row), the renumbering plan applied to the branch's remaining versions
/// numbers them from 1 to `n - 1`.
pub proof fn law_renumbering_keeps_numbers_gap_free(
    numbers: Map<i32, u32>,
    n: int,
    deleted: i32,
    rows: Seq<(i32, u32)>,
)
    requires
        gap_free(numbers, n),
        numbers.dom().contains(deleted),
        forall|id: i32|
            #[trigger] numbers.dom().contains(id) && numbers[id] > numbers[deleted] ==> exists|i: int|
                0 <= i < rows.len() && #[trigger] rows[i] == (id, numbers[id]),
        forall|i: int| 0 <= i < rows.len() && numbers.dom().contains(#[trigger] rows[i].0) ==> rows[i].1 == numbers[rows[i].0],
    ensures
        gap_free(renumbered(numbers, deleted, decremented(greater_versions(rows, numbers[deleted]))), n - 1),
{
    let k = numbers[deleted];
    let plan = decremented(greater_versions(rows, k));
    let after = renumbered(numbers, deleted, plan);
    // Each remaining version moves down by one exactly when it stood above the
    // deleted one.
    assert forall|id: i32| #[trigger] after.dom().contains(id) implies after[id] == (if numbers[id] > k {
        numbers[id] - 1
    } else {
        numbers[id] as int
    }) by {
        lemma_greater_versions_entries(rows, k, id);
        assert(numbers[id] != k);
        if numbers[id] > k {
            let i = choose|i: int| 0 <= i < rows.len() && #[trigger] rows[i] == (id, numbers[id]);
            assert(rows[i].0 == id && rows[i].1 > k);
        }
        if greater_versions(rows, k).dom().contains(id) {
            let i = choose|i: int|
                0 <= i < rows.len() && #[trigger] rows[i] == (id, greater_versions(rows, k)[id]) && rows[i].1 > k;
            assert(numbers.dom().contains(rows[i].0));
        }
    }
    assert forall|id: i32| #[trigger] after.dom().contains(id) implies 1 <= after[id] <= n - 1 by {
        assert(numbers[id] != k);
        assert(after[id] == (if numbers[id] > k { numbers[id] - 1 } else { numbers[id] as int }));
    }
    assert forall|a: i32, b: i32|
        #[trigger] after.dom().contains(a) && #[trigger] after.dom().contains(b) && a != b implies after[a] != after[b] by {
        assert(numbers[a] != k && numbers[b] != k && numbers[a] != numbers[b]);
        assert(after[a] == (if numbers[a] > k { numbers[a] - 1 } else { numbers[a] as int }));
        assert(after[b] == (if numbers[b] > k { numbers[b] - 1 } else { numbers[b] as int }));
    }
    assert forall|j: int| 1 <= j <= n - 1 implies #[trigger] number_taken(after, j) by {
        let target = if j < k { j } else { j + 1 };
        assert(number_taken(numbers, target));
        let id = choose|id: i32| #[trigger] numbers.dom().contains(id) && numbers[id] == target;
        assert(id != deleted);
        assert(after.dom().contains(id));
        assert(after[id] == (if numbers[id] > k { numbers[id] - 1 } else { numbers[id] as int }));
    }
}

} // verus!

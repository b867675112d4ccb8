use bencher_core::report::delete::{
    decrement_plan, DeleteReport, DeleteReportAction, DeleteReportEvent, DeleteReportState,
};
use bencher_core::report::{Permission, ProjReportParams, ReportError, Resource};

fn params() -> ProjReportParams {
    ProjReportParams {
        project: "my-project".to_string(),
        report: 0xa1a2a3a4b1b2c1c2d1d2d3d4d5d6d7d8,
    }
}

#[test]
fn report_is_looked_up_by_hyphenated_uuid() {
    let (mut delete, action) = DeleteReport::start::<String>(&params());
    assert!(matches!(action, DeleteReportAction::Authorize { ref project, permission: Permission::Delete } if project == "my-project"));
    assert_eq!(delete.report_uuid, "a1a2a3a4-b1b2-c1c2-d1d2-d3d4d5d6d7d8");
    let action = delete.step(DeleteReportEvent::<String>::Authorized(Ok(7)));
    match action {
        DeleteReportAction::FindReport { project_id, report_uuid } => {
            assert_eq!(project_id, 7);
            assert_eq!(report_uuid, "a1a2a3a4-b1b2-c1c2-d1d2-d3d4d5d6d7d8");
        }
        _ => panic!("expected a report lookup"),
    }
}

#[test]
fn nil_uuid_text() {
    let (delete, _) = DeleteReport::start::<String>(&ProjReportParams { project: "p".to_string(), report: 0 });
    assert_eq!(delete.report_uuid, "00000000-0000-0000-0000-000000000000");
}

#[test]
fn plan_renumbers_each_greater_version_once() {
    let rows = vec![(5, 3), (6, 4), (5, 3), (7, 1), (8, 2)];
    let mut plan = decrement_plan(2, &rows);
    plan.sort();
    assert_eq!(plan, vec![(5, 2), (6, 3)]);
}

#[test]
fn plan_of_no_rows_is_empty() {
    assert!(decrement_plan(0, &Vec::new()).is_empty());
}

#[test]
fn version_still_in_use_is_kept() {
    let (mut delete, _) = DeleteReport::start::<String>(&params());
    delete.step(DeleteReportEvent::<String>::Authorized(Ok(1)));
    let action = delete.step(DeleteReportEvent::<String>::ReportFound(Ok((10, 20))));
    assert!(matches!(action, DeleteReportAction::DeleteReport { report_id: 10 }));
    let action = delete.step(DeleteReportEvent::<String>::ReportDeleted(Ok(())));
    assert!(matches!(action, DeleteReportAction::CountReports { version_id: 20 }));
    let action = delete.step(DeleteReportEvent::<String>::ReportsCounted(Ok(2)));
    assert!(matches!(action, DeleteReportAction::Respond(Ok(()))));
    assert_eq!(delete.state, DeleteReportState::Done);
}

#[test]
fn unused_version_is_renumbered_around_and_deleted() {
    let (mut delete, _) = DeleteReport::start::<String>(&params());
    delete.step(DeleteReportEvent::<String>::Authorized(Ok(1)));
    delete.step(DeleteReportEvent::<String>::ReportFound(Ok((10, 20))));
    delete.step(DeleteReportEvent::<String>::ReportDeleted(Ok(())));
    let action = delete.step(DeleteReportEvent::<String>::ReportsCounted(Ok(0)));
    assert!(matches!(action, DeleteReportAction::LoadVersion { version_id: 20 }));
    let action = delete.step(DeleteReportEvent::<String>::VersionLoaded(Ok(4)));
    assert!(matches!(action, DeleteReportAction::LoadBranches { version_id: 20 }));
    let action = delete.step(DeleteReportEvent::<String>::BranchesLoaded(Ok(vec![1, 2])));
    match action {
        DeleteReportAction::LoadGreaterVersions { branches, number } => {
            assert_eq!(branches, vec![1, 2]);
            assert_eq!(number, 4);
        }
        _ => panic!("expected the greater versions to be loaded"),
    }
    let action = delete.step(DeleteReportEvent::<String>::GreaterVersionsLoaded(Ok(vec![(21, 5), (22, 6), (21, 5)])));
    match action {
        DeleteReportAction::DecrementVersions { mut plan } => {
            plan.sort();
            assert_eq!(plan, vec![(21, 4), (22, 5)]);
        }
        _ => panic!("expected a renumbering"),
    }
    let action = delete.step(DeleteReportEvent::<String>::VersionsDecremented);
    assert!(matches!(action, DeleteReportAction::DeleteVersion { version_id: 20 }));
    let action = delete.step(DeleteReportEvent::<String>::VersionDeleted(Ok(())));
    assert!(matches!(action, DeleteReportAction::Respond(Ok(()))));
}

#[test]
fn delete_failures_are_reported_by_resource() {
    let (mut delete, _) = DeleteReport::start::<String>(&params());
    let action = delete.step(DeleteReportEvent::Authorized(Err("forbidden".to_string())));
    assert!(matches!(action, DeleteReportAction::Respond(Err(ReportError::Passed(ref e))) if e == "forbidden"));

    let (mut delete, _) = DeleteReport::start::<String>(&params());
    delete.step(DeleteReportEvent::<String>::Authorized(Ok(1)));
    let action = delete.step(DeleteReportEvent::ReportFound(Err("missing".to_string())));
    assert!(matches!(action, DeleteReportAction::Respond(Err(ReportError::NotFound(Resource::Report, _)))));

    let (mut delete, _) = DeleteReport::start::<String>(&params());
    delete.step(DeleteReportEvent::<String>::Authorized(Ok(1)));
    delete.step(DeleteReportEvent::<String>::ReportFound(Ok((10, 20))));
    let action = delete.step(DeleteReportEvent::ReportDeleted(Err("locked".to_string())));
    assert!(matches!(action, DeleteReportAction::Respond(Err(ReportError::Conflict(Resource::Report, _)))));
}

#[test]
fn failed_branch_listing_is_not_found() {
    let (mut delete, _) = DeleteReport::start::<String>(&params());
    delete.step(DeleteReportEvent::<String>::Authorized(Ok(1)));
    delete.step(DeleteReportEvent::<String>::ReportFound(Ok((10, 20))));
    delete.step(DeleteReportEvent::<String>::ReportDeleted(Ok(())));
    delete.step(DeleteReportEvent::<String>::ReportsCounted(Ok(0)));
    delete.step(DeleteReportEvent::<String>::VersionLoaded(Ok(4)));
    let action = delete.step(DeleteReportEvent::BranchesLoaded(Err("db".to_string())));
    assert!(matches!(action, DeleteReportAction::Respond(Err(ReportError::NotFound(Resource::Branch, _)))));
    assert!(!delete.accepts(&DeleteReportEvent::<String>::VersionsDecremented));
}

#[test]
fn failed_version_delete_is_a_conflict() {
    let mut delete = DeleteReport {
        report_uuid: String::new(),
        state: DeleteReportState::DeletingVersion { version_id: 3 },
    };
    let action = delete.step(DeleteReportEvent::VersionDeleted(Err("db".to_string())));
    assert!(matches!(action, DeleteReportAction::Respond(Err(ReportError::Conflict(Resource::Version, _)))));
}

#[test]
fn renumbering_leaves_no_gap_on_a_branch() {
    // A branch holds versions 10, 11, 12 numbered 1, 2, 3; version 11 goes.
    // Another branch's version 30, numbered 5, is listed too.
    let rows = vec![(12, 3), (30, 5)];
    let plan = decrement_plan(2, &rows);
    let mut remaining: Vec<u32> = [(10, 1u32), (12, 3u32)]
        .iter()
        .map(|&(id, number)| plan.iter().find(|(p, _)| *p == id).map(|&(_, n)| n).unwrap_or(number))
        .collect();
    remaining.sort();
    assert_eq!(remaining, vec![1, 2]);
}

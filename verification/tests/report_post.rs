use bencher_core::adapter::JsonAdapter;
use bencher_core::report::post::{JsonReportSettings, PostReport, PostReportAction, PostReportEvent, PostReportState};
use bencher_core::report::{Permission, ReportError, Resource};

type Post = PostReport<u32, String>;
type Event = PostReportEvent<&'static str, String>;
type Action = PostReportAction<&'static str, u32, String>;

fn settings(adapter: Option<JsonAdapter>) -> Option<JsonReportSettings<u32>> {
    Some(JsonReportSettings { adapter, options: 42 })
}

fn start(plus: bool, given: Option<JsonReportSettings<u32>>) -> Post {
    let (post, action): (Post, Action) = PostReport::start(
        plus,
        "proj".to_string(),
        77,
        "main".to_string(),
        "ci".to_string(),
        Some("abc123".to_string()),
        vec!["first".to_string(), "second".to_string()],
        given,
    );
    assert!(matches!(action, PostReportAction::Authorize { ref project, permission: Permission::Create } if project == "proj"));
    post
}

/// Runs a post up to the processing of its results; returns the post and the
/// settings the results are processed with.
fn until_processing(plus: bool, given: Option<JsonReportSettings<u32>>) -> (Post, JsonReportSettings<u32>) {
    let mut post = start(plus, given);
    match post.step(Event::Authorized(Ok(1))) {
        PostReportAction::FindBranch { project_id: 1, branch } => assert_eq!(branch, "main"),
        _ => panic!("expected the branch lookup"),
    }
    match post.step(Event::BranchFound(Ok(2))) {
        PostReportAction::FindTestbed { project_id: 1, testbed } => assert_eq!(testbed, "ci"),
        _ => panic!("expected the testbed lookup"),
    }
    let mut action = post.step(Event::TestbedFound(Ok(3)));
    if plus {
        assert!(matches!(action, PostReportAction::CheckPlan { project_id: 1 }));
        action = post.step(Event::PlanChecked(Ok(())));
    }
    match action {
        PostReportAction::ResolveVersion { project_id: 1, branch_id: 2, hash } => {
            assert_eq!(hash.as_deref(), Some("abc123"))
        }
        _ => panic!("expected the version to be resolved"),
    }
    let expected = post.adapter;
    match post.step(Event::VersionResolved(Ok(4))) {
        PostReportAction::InsertReport { user_id, project_id, branch_id, version_id, testbed_id, adapter } => {
            assert_eq!((user_id, project_id, branch_id, version_id, testbed_id), (77, 1, 2, 4, 3));
            assert_eq!(adapter, expected);
        }
        _ => panic!("expected the report to be inserted"),
    }
    assert!(matches!(post.step(Event::ReportInserted(Ok(()))), PostReportAction::LoadReport));
    match post.step(Event::ReportLoaded(Ok(5))) {
        PostReportAction::ProcessResults { project_id, branch_id, testbed_id, report_id, results, adapter, settings } => {
            assert_eq!((project_id, branch_id, testbed_id, report_id), (1, 2, 3, 5));
            assert_eq!(results, vec!["first".to_string(), "second".to_string()]);
            assert_eq!(adapter, expected);
            assert!(post.settings.is_none());
            assert!(post.results.is_none());
            (post, settings)
        }
        _ => panic!("expected the results to be processed"),
    }
}

#[test]
fn adapter_defaults_to_magic() {
    let (post, used) = until_processing(false, settings(None));
    assert_eq!(post.adapter, JsonAdapter::Magic);
    assert_eq!(used.options, 42);
    let (post, used) = until_processing(false, settings(Some(JsonAdapter::RustCriterion)));
    assert_eq!(post.adapter, JsonAdapter::RustCriterion);
    assert_eq!(used.adapter, Some(JsonAdapter::RustCriterion));
}

#[test]
fn missing_settings_are_processed_as_the_defaults() {
    let (post, used) = until_processing(false, None);
    assert_eq!(post.adapter, JsonAdapter::Magic);
    assert_eq!(used.adapter, None);
    assert_eq!(used.options, 0);
}

#[test]
fn report_is_returned_after_processing() {
    let (mut post, _) = until_processing(false, None);
    assert!(matches!(post.step(Event::Processed { result: Ok(()), usage: 0 }), PostReportAction::Convert));
    assert!(matches!(post.step(Event::Converted(Ok("report"))), PostReportAction::Respond(Ok("report"))));
    assert!(matches!(post.state, PostReportState::Done));
}

#[test]
fn processing_error_without_metering_is_answered_at_once() {
    let (mut post, _) = until_processing(false, None);
    let action = post.step(Event::Processed { result: Err("bad results".to_string()), usage: 9 });
    assert!(matches!(action, PostReportAction::Respond(Err(ReportError::Passed(ref e))) if e == "bad results"));
}

#[test]
fn processing_error_waits_for_usage_check() {
    let (mut post, _) = until_processing(true, None);
    let action = post.step(Event::Processed { result: Err("bad results".to_string()), usage: 9 });
    assert!(matches!(action, PostReportAction::CheckUsage { usage: 9 }));
    let action = post.step(Event::UsageChecked(Ok(())));
    assert!(matches!(action, PostReportAction::Respond(Err(ReportError::Passed(ref e))) if e == "bad results"));
}

#[test]
fn failed_usage_check_wins_over_processing_error() {
    let (mut post, _) = until_processing(true, None);
    post.step(Event::Processed { result: Err("bad results".to_string()), usage: 9 });
    let action = post.step(Event::UsageChecked(Err("over plan".to_string())));
    assert!(matches!(action, PostReportAction::Respond(Err(ReportError::Passed(ref e))) if e == "over plan"));
}

#[test]
fn metered_report_is_returned_after_usage_check() {
    let (mut post, _) = until_processing(true, None);
    post.step(Event::Processed { result: Ok(()), usage: 3 });
    assert!(matches!(post.step(Event::UsageChecked(Ok(()))), PostReportAction::Convert));
    assert!(matches!(post.step(Event::Converted(Ok("report"))), PostReportAction::Respond(Ok("report"))));
}

#[test]
fn insert_failure_is_a_conflict_and_missing_report_an_issue() {
    let mut post = start(false, None);
    post.state = PostReportState::InsertingReport { project_id: 1, branch_id: 2, testbed_id: 3 };
    let action = post.step(Event::ReportInserted(Err("dup".to_string())));
    assert!(matches!(action, PostReportAction::Respond(Err(ReportError::Conflict(Resource::Report, _)))));
    let mut post = start(false, None);
    post.state = PostReportState::LoadingReport { project_id: 1, branch_id: 2, testbed_id: 3 };
    let action = post.step(Event::ReportLoaded(Err("gone".to_string())));
    assert!(matches!(action, PostReportAction::Respond(Err(ReportError::Issue(_)))));
}

#[test]
fn unknown_branch_is_passed_on() {
    let mut post = start(false, settings(None));
    post.step(Event::Authorized(Ok(1)));
    let action = post.step(Event::BranchFound(Err("no such branch".to_string())));
    assert!(matches!(action, PostReportAction::Respond(Err(ReportError::Passed(_)))));
    assert!(!post.accepts(&Event::TestbedFound(Ok(3))));
}

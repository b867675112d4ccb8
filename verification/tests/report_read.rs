use bencher_core::report::get::{GetReport, GetReportAction, GetReportEvent};
use bencher_core::report::list::{
    collect_reports, report_list_query, JsonReportQuery, ListReports, ListReportsAction, ListReportsEvent,
    ProjReportsPagination,
};
use bencher_core::report::{
    ProjReportsParams, proj_report_options, proj_reports_options, JsonDirection, ProjReportParams, ProjReportsSort, ReportError,
    ReportMethod, Resource,
};

fn params() -> ProjReportsParams {
    ProjReportsParams { project: "proj".to_string() }
}

fn query() -> JsonReportQuery {
    JsonReportQuery {
        branch: Some("main".to_string()),
        testbed: None,
        start_time: Some(100),
        end_time: None,
    }
}

fn page(direction: Option<JsonDirection>) -> ProjReportsPagination {
    ProjReportsPagination { sort: None, direction, offset: 20, limit: 10 }
}

#[test]
fn default_sort_is_by_date_time() {
    assert_eq!(ProjReportsSort::default(), ProjReportsSort::DateTime);
}

#[test]
fn reports_are_listed_newest_first_unless_ascending_is_asked() {
    assert_eq!(report_list_query(1, query(), &page(None)).direction, JsonDirection::Desc);
    assert_eq!(report_list_query(1, query(), &page(Some(JsonDirection::Desc))).direction, JsonDirection::Desc);
    let q = report_list_query(1, query(), &page(Some(JsonDirection::Asc)));
    assert_eq!(q.direction, JsonDirection::Asc);
    assert_eq!(q.project_id, 1);
    assert_eq!(q.branch.as_deref(), Some("main"));
    assert_eq!(q.testbed, None);
    assert_eq!(q.start_time, Some(100));
    assert_eq!(q.end_time, None);
    assert_eq!((q.offset, q.limit), (20, 10));
}

#[test]
fn reports_that_fail_to_convert_are_left_out() {
    let results: Vec<Result<u32, String>> = vec![Ok(1), Err("broken".to_string()), Ok(3), Err("x".to_string())];
    assert_eq!(collect_reports(results), vec![1, 3]);
    assert!(collect_reports(Vec::<Result<u32, String>>::new()).is_empty());
}

#[test]
fn listing_runs_to_the_page_of_reports() {
    let (mut list, action) = ListReports::start::<u32, String>(params(), query(), page(Some(JsonDirection::Asc)));
    assert!(matches!(action, ListReportsAction::AuthorizeView { ref project } if project == "proj"));
    match list.step::<u32, String>(ListReportsEvent::Authorized(Ok(4))) {
        ListReportsAction::LoadReports(q) => {
            assert_eq!(q.project_id, 4);
            assert_eq!(q.direction, JsonDirection::Asc);
        }
        _ => panic!("expected the reports to be loaded"),
    }
    assert!(matches!(list.step::<u32, String>(ListReportsEvent::Loaded(Ok(()))), ListReportsAction::ConvertEach));
    match list.step::<u32, String>(ListReportsEvent::Converted(vec![Ok(7), Err("bad".to_string()), Ok(8)])) {
        ListReportsAction::Respond(Ok(reports)) => assert_eq!(reports, vec![7, 8]),
        _ => panic!("expected the reports"),
    }
}

#[test]
fn listing_load_failure_is_not_found() {
    let (mut list, _) = ListReports::start::<u32, String>(params(), query(), page(None));
    list.step::<u32, String>(ListReportsEvent::Authorized(Ok(4)));
    let action = list.step::<u32, String>(ListReportsEvent::Loaded(Err("db".to_string())));
    assert!(matches!(action, ListReportsAction::Respond(Err(ReportError::NotFound(Resource::Report, _)))));
}

#[test]
fn one_report_is_read_by_its_uuid() {
    let params = ProjReportParams { project: "p".to_string(), report: 0x0123456789abcdef0123456789abcdef };
    let (mut get, action) = GetReport::start::<&str, String>(&params);
    assert!(matches!(action, GetReportAction::AuthorizeView { ref project } if project == "p"));
    match get.step::<&str, String>(GetReportEvent::Authorized(Ok(2))) {
        GetReportAction::FindReport { project_id, report_uuid } => {
            assert_eq!(project_id, 2);
            assert_eq!(report_uuid, "01234567-89ab-cdef-0123-456789abcdef");
        }
        _ => panic!("expected a lookup"),
    }
    assert!(matches!(get.step::<&str, String>(GetReportEvent::ReportFound(Ok(9))), GetReportAction::Convert { report_id: 9 }));
    assert!(matches!(get.step::<&str, String>(GetReportEvent::Converted(Ok("r"))), GetReportAction::Respond(Ok("r"))));
}

#[test]
fn missing_report_is_not_found() {
    let params = ProjReportParams { project: "p".to_string(), report: 1 };
    let (mut get, _) = GetReport::start::<&str, String>(&params);
    get.step::<&str, String>(GetReportEvent::Authorized(Ok(2)));
    let action = get.step::<&str, String>(GetReportEvent::ReportFound(Err("none".to_string())));
    assert!(matches!(action, GetReportAction::Respond(Err(ReportError::NotFound(Resource::Report, _)))));
}

#[test]
fn failures_map_to_statuses() {
    assert_eq!(ReportError::NotFound(Resource::Report, ()).status(), Some(404));
    assert_eq!(ReportError::Conflict(Resource::Version, ()).status(), Some(409));
    assert_eq!(ReportError::Issue(()).status(), Some(404));
    assert_eq!(ReportError::Passed(()).status(), None);
}

#[test]
fn options_list_allowed_methods() {
    assert_eq!(proj_reports_options(), vec![ReportMethod::Get, ReportMethod::Post]);
    assert_eq!(proj_report_options(), vec![ReportMethod::Get, ReportMethod::Delete]);
}

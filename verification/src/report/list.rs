//! Listing a project's reports.
use vstd::prelude::*;

use super::{JsonDirection, ProjReportsParams, ProjReportsSort, ReportError, Resource};

verus! {

/// The filters of a report listing.
pub struct JsonReportQuery {
    /// Only reports on this branch (name, slug or UUID).
    pub branch: Option<String>,
    /// Only reports on this testbed (name, slug or UUID).
    pub testbed: Option<String>,
    /// Only reports that started at or after this time.
    pub start_time: Option<i64>,
    /// Only reports that ended at or before this time.
    pub end_time: Option<i64>,
}

/// The page of a report listing that is asked for.
pub struct ProjReportsPagination {
    pub sort: Option<ProjReportsSort>,
    pub direction: Option<JsonDirection>,
    /// How many reports to skip.
    pub offset: i64,
    /// How many reports to return at most.
    pub limit: i64,
}

/// The query that lists a project's reports: the project's reports on the
/// filtered branch and testbed within the time bounds, ordered by start time,
/// then end time, then creation time, all in `direction`, paged by `offset`
/// and `limit`.
pub struct ReportListQuery {
    pub project_id: i32,
    pub branch: Option<String>,
    pub testbed: Option<String>,
    pub start_time: Option<i64>,
    pub end_time: Option<i64>,
    pub direction: JsonDirection,
    pub offset: i64,
    pub limit: i64,
}

/// The direction in which reports are listed: ascending only when asked for,
/// newest first otherwise.
pub open spec fn listing_direction(sort: ProjReportsSort, direction: Option<JsonDirection>) -> JsonDirection {
    match sort {
        ProjReportsSort::DateTime => match direction {
            Some(JsonDirection::Asc) => JsonDirection::Asc,
            _ => JsonDirection::Desc,
        },
    }
}

/// The sort that the page asks for, or the default one.
pub open spec fn chosen_sort(sort: Option<ProjReportsSort>) -> ProjReportsSort {
    match sort {
        Some(s) => s,
        None => ProjReportsSort::DateTime,
    }
}

/// The successful results among `results`, in order.
pub open spec fn oks<R, E>(results: Seq<Result<R, E>>) -> Seq<R>
    decreases results.len(),
{
    if results.len() == 0 {
        Seq::empty()
    } else {
        let before = oks(results.drop_last());
        match results.last() {
            Ok(r) => before.push(r),
            Err(_) => before,
        }
    }
}

/// Whether a conversion succeeded.
pub open spec fn converted_ok<R, E>(result: Result<R, E>) -> bool {
    result is Ok
}

/// The report of a successful conversion.
pub open spec fn converted_report<R, E>(result: Result<R, E>) -> R {
    result->Ok_0
}

/// The successful results are those of `results` that are `Ok`, in their
/// order: the listing keeps each converted report and the order in which the
/// query loaded them, and leaves out only the failures.
pub proof fn law_listing_keeps_converted_reports_in_order<R, E>(results: Seq<Result<R, E>>)
    ensures
        oks(results) == results.filter(|r: Result<R, E>| converted_ok(r)).map_values(
            |r: Result<R, E>| converted_report(r),
        ),
    decreases results.len(),
{
    let f = |r: Result<R, E>| converted_ok(r);
    let g = |r: Result<R, E>| converted_report(r);
    if results.len() > 0 {
        law_listing_keeps_converted_reports_in_order(results.drop_last());
        let d = results.drop_last();
        assert(d.push(results.last()) =~= results);
        d.lemma_filter_push(results.last(), f);
        let before = d.filter(f);
        if f(results.last()) {
            assert(results.filter(f) == before.push(results.last()));
            assert(before.push(results.last()).map_values(g) =~= before.map_values(g).push(g(results.last())));
        } else {
            assert(results.filter(f) == before);
        }
    } else {
        assert(results.filter(f).map_values(g) =~= Seq::<R>::empty());
    }
}

/// Listing two runs of results one after the other gives the reports of the
/// first run followed by those of the second.
pub proof fn law_listing_of_concatenation<R, E>(a: Seq<Result<R, E>>, b: Seq<Result<R, E>>)
    ensures
        oks(a + b) == oks(a) + oks(b),
    decreases b.len(),
{
    if b.len() == 0 {
        assert(a + b =~= a);
        assert(oks(a) + oks(b) =~= oks(a));
    } else {
        law_listing_of_concatenation(a, b.drop_last());
        assert((a + b).drop_last() =~= a + b.drop_last());
        assert((a + b).last() == b.last());
        match b.last() {
            Ok(r) => {
                assert(oks(a) + oks(b.drop_last()).push(r) =~= (oks(a) + oks(b.drop_last())).push(r));
            },
            Err(_) => {},
        }
    }
}

/// Where every conversion succeeded, the listing holds every report, in the
/// order loaded.
pub proof fn law_listing_of_all_converted<R, E>(reports: Seq<R>)
    ensures
        oks(reports.map_values(|r: R| Ok::<R, E>(r))) == reports,
    decreases reports.len(),
{
    let f = |r: R| Ok::<R, E>(r);
    if reports.len() > 0 {
        law_listing_of_all_converted::<R, E>(reports.drop_last());
        assert(reports.map_values(f).drop_last() =~= reports.drop_last().map_values(f));
        assert(reports.drop_last().push(reports.last()) =~= reports);
    } else {
        assert(reports.map_values(f) =~= Seq::<Result<R, E>>::empty());
    }
}

/// The query that lists project `project_id`'s reports with the filters of
/// `query`, on the page `pagination` asks for.
pub fn report_list_query(project_id: i32, query: JsonReportQuery, pagination: &ProjReportsPagination) -> (q: ReportListQuery)
    ensures
        q.project_id == project_id,
        q.branch == query.branch,
        q.testbed == query.testbed,
        q.start_time == query.start_time,
        q.end_time == query.end_time,
        q.direction == listing_direction(chosen_sort(pagination.sort), pagination.direction),
        q.offset == pagination.offset,
        q.limit == pagination.limit,
{
    let sort = match pagination.sort {
        Some(s) => s,
        None => ProjReportsSort::default(),
    };
    let direction = match sort {
        ProjReportsSort::DateTime => match pagination.direction {
            Some(JsonDirection::Asc) => JsonDirection::Asc,
            Some(JsonDirection::Desc) | None => JsonDirection::Desc,
        },
    };
    ReportListQuery {
        project_id,
        branch: query.branch,
        testbed: query.testbed,
        start_time: query.start_time,
        end_time: query.end_time,
        direction,
        offset: pagination.offset,
        limit: pagination.limit,
    }
}

/// The reports that could be turned into JSON, in their order; a report that
/// could not is left out of the listing.
pub fn collect_reports<R, E>(results: Vec<Result<R, E>>) -> (reports: Vec<R>)
    ensures
        reports@ == oks(results@),
        reports@ == results@.filter(|r: Result<R, E>| converted_ok(r)).map_values(
            |r: Result<R, E>| converted_report(r),
        ),
{
    proof {
        law_listing_keeps_converted_reports_in_order(results@);
    }
    let ghost all = results@;
    let mut results = results;
    let mut reports: Vec<R> = Vec::new();
    let mut k: usize = 0;
    assert(all.len() == results.len());
    assert(all.take(0) =~= Seq::<Result<R, E>>::empty());
    assert(all.skip(0) =~= all);
    while results.len() > 0
        invariant
            k <= all.len(),
            all.len() <= usize::MAX,
            results@ == all.skip(k as int),
            reports@ == oks(all.take(k as int)),
        decreases results.len(),
    {
        assert(k < all.len());
        let next = results.remove(0);
        assert(all.take(k as int + 1).drop_last() =~= all.take(k as int));
        assert(all.take(k as int + 1).last() == next);
        assert(all.skip(k as int + 1) =~= all.skip(k as int).drop_first());
        match next {
            Ok(report) => reports.push(report),
            Err(_) => {},
        }
        k = k + 1;
    }
    assert(all.take(k as int) =~= all);
    reports
}

/// Where a report listing stands.
#[derive(Debug, Clone, Copy, PartialEq, Eq, Structural)]
pub enum ListReportsState {
    /// Waiting to learn whether the project is public or the user may view it.
    Authorizing,
    /// Waiting for the page of reports.
    Loading,
    /// Waiting for the reports in JSON form.
    Converting,
    /// The response has been given.
    Done,
}

/// The outcome of the last action, handed back by the caller.
pub enum ListReportsEvent<R, E> {
    /// The project's id, if it may be viewed.
    Authorized(Result<i32, E>),
    /// Whether the page of reports could be loaded.
    Loaded(Result<(), E>),
    /// Each loaded report in JSON form, or why it could not be converted.
    Converted(Vec<Result<R, E>>),
}

/// What the caller must do next.
pub enum ListReportsAction<R, E> {
    /// Check that the project (by UUID or slug) is public or that the user
    /// may view it.
    AuthorizeView { project: String },
    /// Load the reports that the query selects.
    LoadReports(ReportListQuery),
    /// Turn each loaded report into its JSON form.
    ConvertEach,
    /// Answer the request.
    Respond(Result<Vec<R>, ReportError<E>>),
}

/// The listing of a project's reports, driven by the caller.
pub struct ListReports {
    /// The filters, until the query is built.
    pub query: Option<JsonReportQuery>,
    pub pagination: ProjReportsPagination,
    pub state: ListReportsState,
}

/// Whether `e` is the outcome that state `s` waits for.
pub open spec fn list_accepts<R, E>(s: ListReportsState, e: ListReportsEvent<R, E>) -> bool {
    match (s, e) {
        (ListReportsState::Authorizing, ListReportsEvent::Authorized(_)) => true,
        (ListReportsState::Loading, ListReportsEvent::Loaded(_)) => true,
        (ListReportsState::Converting, ListReportsEvent::Converted(_)) => true,
        _ => false,
    }
}

/// The state after `e`: success moves on, any failure ends.
pub open spec fn list_transition<R, E>(s: ListReportsState, e: ListReportsEvent<R, E>) -> ListReportsState {
    match e {
        ListReportsEvent::Authorized(Ok(_)) => ListReportsState::Loading,
        ListReportsEvent::Loaded(Ok(_)) => ListReportsState::Converting,
        _ => ListReportsState::Done,
    }
}

impl ListReports {
    /// Begins listing the reports of the project in `params` with the filters
    /// `query` on the page `pagination`: first the project's visibility to the
    /// user is checked.
    pub fn start<R, E>(
        params: ProjReportsParams,
        query: JsonReportQuery,
        pagination: ProjReportsPagination,
    ) -> (res: (ListReports, ListReportsAction<R, E>))
        ensures
            res.0.state == ListReportsState::Authorizing,
            res.0.query == Some(query),
            res.0.pagination == pagination,
            res.1 == (ListReportsAction::<R, E>::AuthorizeView { project: params.project }),
    {
        (
            ListReports { query: Some(query), pagination, state: ListReportsState::Authorizing },
            ListReportsAction::AuthorizeView { project: params.project },
        )
    }

    /// Whether `event` is the outcome that the listing waits for.
    pub fn accepts<R, E>(&self, event: &ListReportsEvent<R, E>) -> (r: bool)
        ensures
            r == list_accepts(self.state, *event),
    {
        match (self.state, event) {
            (ListReportsState::Authorizing, ListReportsEvent::Authorized(_)) => true,
            (ListReportsState::Loading, ListReportsEvent::Loaded(_)) => true,
            (ListReportsState::Converting, ListReportsEvent::Converted(_)) => true,
            _ => false,
        }
    }

    /// Takes the outcome of the last action and returns the next one.
    pub fn step<R, E>(&mut self, event: ListReportsEvent<R, E>) -> (action: ListReportsAction<R, E>)
        requires
            list_accepts(old(self).state, event),
            old(self).state is Authorizing ==> old(self).query is Some,
        ensures
            final(self).state == list_transition(old(self).state, event),
            final(self).pagination == old(self).pagination,
            match event {
                ListReportsEvent::Authorized(Err(x)) => action == ListReportsAction::<R, E>::Respond(
                    Err(ReportError::Passed(x)),
                ),
                ListReportsEvent::Authorized(Ok(p)) => {
                    let query = old(self).query.unwrap();
                    let pagination = old(self).pagination;
                    &&& action matches ListReportsAction::LoadReports(q)
                    &&& q.project_id == p
                    &&& q.branch == query.branch
                    &&& q.testbed == query.testbed
                    &&& q.start_time == query.start_time
                    &&& q.end_time == query.end_time
                    &&& q.direction == listing_direction(chosen_sort(pagination.sort), pagination.direction)
                    &&& q.offset == pagination.offset
                    &&& q.limit == pagination.limit
                },
                ListReportsEvent::Loaded(Err(x)) => action == ListReportsAction::<R, E>::Respond(
                    Err(ReportError::NotFound(Resource::Report, x)),
                ),
                ListReportsEvent::Loaded(Ok(_)) => action == ListReportsAction::<R, E>::ConvertEach,
                ListReportsEvent::Converted(results) => {
                    &&& action matches ListReportsAction::Respond(Ok(reports))
                    &&& reports@ == oks(results@)
                },
            },
    {
        match event {
            ListReportsEvent::Authorized(Err(x)) => {
                self.state = ListReportsState::Done;
                ListReportsAction::Respond(Err(ReportError::Passed(x)))
            },
            ListReportsEvent::Authorized(Ok(project_id)) => {
                let mut query = None;
                std::mem::swap(&mut query, &mut self.query);
                match query {
                    Some(query) => {
                        self.state = ListReportsState::Loading;
                        ListReportsAction::LoadReports(report_list_query(project_id, query, &self.pagination))
                    },
                    None => {
                        proof { assert(false); }
                        ListReportsAction::ConvertEach
                    },
                }
            },
            ListReportsEvent::Loaded(Err(x)) => {
                self.state = ListReportsState::Done;
                ListReportsAction::Respond(Err(ReportError::NotFound(Resource::Report, x)))
            },
            ListReportsEvent::Loaded(Ok(())) => {
                self.state = ListReportsState::Converting;
                ListReportsAction::ConvertEach
            },
            ListReportsEvent::Converted(results) => {
                self.state = ListReportsState::Done;
                ListReportsAction::Respond(Ok(collect_reports(results)))
            },
        }
    }
}

} // verus!

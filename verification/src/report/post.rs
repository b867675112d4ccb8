//! Posting a new report to a project and processing its results.
//!
//! Posts are taken to be chronological: a report is never posted for a run
//! that happened before an already posted one.
use vstd::prelude::*;

use super::{Permission, ReportError, Resource};
use crate::adapter::JsonAdapter;

verus! {

/// A report's settings: the adapter that reads its results, and the options
/// that only the processing of the results reads.
pub struct JsonReportSettings<O> {
    pub adapter: Option<JsonAdapter>,
    pub options: O,
}

impl<O: Default> Default for JsonReportSettings<O> {
    /// No adapter named, and the options' own defaults.
    fn default() -> (settings: Self)
        ensures
            default_settings(settings),
    {
        JsonReportSettings { adapter: None, options: O::default() }
    }
}

/// Where a report post stands.
#[derive(Debug)]
pub enum PostReportState<E> {
    /// Waiting to learn whether the user may create in the project.
    Authorizing,
    /// Waiting for the report's branch, which must belong to the project.
    FindingBranch { project_id: i32 },
    /// Waiting for the report's testbed, which must belong to the project.
    FindingTestbed { project_id: i32, branch_id: i32 },
    /// Waiting for the project's plan (metered builds only).
    CheckingPlan { project_id: i32, branch_id: i32, testbed_id: i32 },
    /// Waiting for the code version of the report's hash on the branch.
    ResolvingVersion { project_id: i32, branch_id: i32, testbed_id: i32 },
    /// Waiting for the report row to be inserted.
    InsertingReport { project_id: i32, branch_id: i32, testbed_id: i32 },
    /// Waiting for the report row just inserted.
    LoadingReport { project_id: i32, branch_id: i32, testbed_id: i32 },
    /// Waiting for the report's results to be processed.
    Processing,
    /// Waiting for the metered usage check; the processing outcome is held
    /// back until then.
    CheckingUsage { processed: Result<(), E> },
    /// Waiting for the report to be turned into its JSON form.
    Converting,
    /// The response has been given.
    Done,
}

/// The outcome of the last action, handed back by the caller.
pub enum PostReportEvent<R, E> {
    /// The project's id, if the user may create in it.
    Authorized(Result<i32, E>),
    BranchFound(Result<i32, E>),
    TestbedFound(Result<i32, E>),
    PlanChecked(Result<(), E>),
    /// The id of the code version to record the report under.
    VersionResolved(Result<i32, E>),
    ReportInserted(Result<(), E>),
    /// The id of the report row just inserted.
    ReportLoaded(Result<i32, E>),
    /// How processing the results went, and how many metrics it used.
    Processed { result: Result<(), E>, usage: u64 },
    UsageChecked(Result<(), E>),
    /// The report in JSON form.
    Converted(Result<R, E>),
}

/// What the caller must do next.
pub enum PostReportAction<R, O, E> {
    /// Check that the user holds the permission in the project (by UUID or
    /// slug).
    Authorize { project: String, permission: Permission },
    /// Find the branch (by name, slug or UUID) among the project's branches.
    FindBranch { project_id: i32, branch: String },
    /// Find the testbed (by name, slug or UUID) among the project's testbeds.
    FindTestbed { project_id: i32, testbed: String },
    /// Find the project's plan, which private projects need.
    CheckPlan { project_id: i32 },
    /// Find the branch's code version with the hash, or add a new one.
    ResolveVersion { project_id: i32, branch_id: i32, hash: Option<String> },
    /// Insert the report row, posted by the user.
    InsertReport {
        user_id: i32,
        project_id: i32,
        branch_id: i32,
        version_id: i32,
        testbed_id: i32,
        adapter: JsonAdapter,
    },
    /// Load the report row just inserted, by its UUID.
    LoadReport,
    /// Process and record the results, in order, with the adapter and the
    /// settings.
    ProcessResults {
        project_id: i32,
        branch_id: i32,
        testbed_id: i32,
        report_id: i32,
        results: Vec<String>,
        adapter: JsonAdapter,
        settings: JsonReportSettings<O>,
    },
    /// Check the plan against the metrics used.
    CheckUsage { usage: u64 },
    /// Turn the report into its JSON form.
    Convert,
    /// Answer the request.
    Respond(Result<R, ReportError<E>>),
}

/// The post of one report, driven by the caller.
pub struct PostReport<O, E> {
    /// Whether the build meters private projects by plan and usage.
    pub plus: bool,
    /// The user who posts the report.
    pub user_id: i32,
    /// The report's branch and testbed, by name, slug or UUID.
    pub branch: String,
    pub testbed: String,
    /// The report's commit hash, if any.
    pub hash: Option<String>,
    /// The report's results, until they are processed.
    pub results: Option<Vec<String>>,
    /// The report's settings (the defaults where none were posted), until the
    /// results are processed.
    pub settings: Option<JsonReportSettings<O>>,
    /// The adapter that reads the report's results.
    pub adapter: JsonAdapter,
    pub state: PostReportState<E>,
}

/// The adapter that the settings name, or the default one.
pub open spec fn chosen_adapter<O>(settings: JsonReportSettings<O>) -> JsonAdapter {
    match settings.adapter {
        Some(a) => a,
        None => JsonAdapter::Magic,
    }
}

/// The settings are the default ones: no adapter named, and the options'
/// own defaults.
pub open spec fn default_settings<O: Default>(settings: JsonReportSettings<O>) -> bool {
    &&& settings.adapter is None
    &&& call_ensures(O::default, (), settings.options)
}

/// The results and settings are held until they are processed.
pub open spec fn post_holds_inputs<O, E>(m: PostReport<O, E>) -> bool {
    !(m.state is Processing || m.state is CheckingUsage || m.state is Converting || m.state is Done) ==> {
        &&& m.results is Some
        &&& m.settings is Some
    }
}

/// Whether `e` is the outcome that state `s` waits for.
pub open spec fn post_accepts<R, E>(s: PostReportState<E>, e: PostReportEvent<R, E>) -> bool {
    match (s, e) {
        (PostReportState::Authorizing, PostReportEvent::Authorized(_)) => true,
        (PostReportState::FindingBranch { .. }, PostReportEvent::BranchFound(_)) => true,
        (PostReportState::FindingTestbed { .. }, PostReportEvent::TestbedFound(_)) => true,
        (PostReportState::CheckingPlan { .. }, PostReportEvent::PlanChecked(_)) => true,
        (PostReportState::ResolvingVersion { .. }, PostReportEvent::VersionResolved(_)) => true,
        (PostReportState::InsertingReport { .. }, PostReportEvent::ReportInserted(_)) => true,
        (PostReportState::LoadingReport { .. }, PostReportEvent::ReportLoaded(_)) => true,
        (PostReportState::Processing, PostReportEvent::Processed { .. }) => true,
        (PostReportState::CheckingUsage { .. }, PostReportEvent::UsageChecked(_)) => true,
        (PostReportState::Converting, PostReportEvent::Converted(_)) => true,
        _ => false,
    }
}

/// The state after `e` in state `s`; `plus` says whether plan and usage are
/// checked. Success moves on, any failure ends.
pub open spec fn post_transition<R, E>(plus: bool, s: PostReportState<E>, e: PostReportEvent<R, E>) -> PostReportState<E> {
    match (s, e) {
        (_, PostReportEvent::Authorized(Ok(project_id))) => PostReportState::FindingBranch { project_id },
        (PostReportState::FindingBranch { project_id }, PostReportEvent::BranchFound(Ok(branch_id))) =>
            PostReportState::FindingTestbed { project_id, branch_id },
        (PostReportState::FindingTestbed { project_id, branch_id }, PostReportEvent::TestbedFound(Ok(testbed_id))) =>
            if plus {
                PostReportState::CheckingPlan { project_id, branch_id, testbed_id }
            } else {
                PostReportState::ResolvingVersion { project_id, branch_id, testbed_id }
            },
        (PostReportState::CheckingPlan { project_id, branch_id, testbed_id }, PostReportEvent::PlanChecked(Ok(_))) =>
            PostReportState::ResolvingVersion { project_id, branch_id, testbed_id },
        (PostReportState::ResolvingVersion { project_id, branch_id, testbed_id }, PostReportEvent::VersionResolved(Ok(_))) =>
            PostReportState::InsertingReport { project_id, branch_id, testbed_id },
        (PostReportState::InsertingReport { project_id, branch_id, testbed_id }, PostReportEvent::ReportInserted(Ok(_))) =>
            PostReportState::LoadingReport { project_id, branch_id, testbed_id },
        (PostReportState::LoadingReport { .. }, PostReportEvent::ReportLoaded(Ok(_))) => PostReportState::Processing,
        (_, PostReportEvent::Processed { result, .. }) =>
            if plus {
                PostReportState::CheckingUsage { processed: result }
            } else {
                match result {
                    Ok(_) => PostReportState::Converting,
                    Err(_) => PostReportState::Done,
                }
            },
        (PostReportState::CheckingUsage { processed: Ok(_) }, PostReportEvent::UsageChecked(Ok(_))) =>
            PostReportState::Converting,
        _ => PostReportState::Done,
    }
}

/// The action that follows `e` for the post `m`.
pub open spec fn post_action<R, O, E>(m: PostReport<O, E>, e: PostReportEvent<R, E>) -> PostReportAction<R, O, E> {
    let fail = |err: ReportError<E>| PostReportAction::Respond(Err(err));
    match (m.state, e) {
        (_, PostReportEvent::Authorized(Err(x))) => fail(ReportError::Passed(x)),
        (_, PostReportEvent::Authorized(Ok(project_id))) => PostReportAction::FindBranch { project_id, branch: m.branch },
        (_, PostReportEvent::BranchFound(Err(x))) => fail(ReportError::Passed(x)),
        (PostReportState::FindingBranch { project_id }, PostReportEvent::BranchFound(Ok(_))) =>
            PostReportAction::FindTestbed { project_id, testbed: m.testbed },
        (_, PostReportEvent::TestbedFound(Err(x))) => fail(ReportError::Passed(x)),
        (PostReportState::FindingTestbed { project_id, branch_id }, PostReportEvent::TestbedFound(Ok(_))) =>
            if m.plus {
                PostReportAction::CheckPlan { project_id }
            } else {
                PostReportAction::ResolveVersion { project_id, branch_id, hash: m.hash }
            },
        (_, PostReportEvent::PlanChecked(Err(x))) => fail(ReportError::Passed(x)),
        (PostReportState::CheckingPlan { project_id, branch_id, .. }, PostReportEvent::PlanChecked(Ok(_))) =>
            PostReportAction::ResolveVersion { project_id, branch_id, hash: m.hash },
        (_, PostReportEvent::VersionResolved(Err(x))) => fail(ReportError::Passed(x)),
        (
            PostReportState::ResolvingVersion { project_id, branch_id, testbed_id },
            PostReportEvent::VersionResolved(Ok(version_id)),
        ) => PostReportAction::InsertReport {
            user_id: m.user_id,
            project_id,
            branch_id,
            version_id,
            testbed_id,
            adapter: m.adapter,
        },
        (_, PostReportEvent::ReportInserted(Err(x))) => fail(ReportError::Conflict(Resource::Report, x)),
        (PostReportState::InsertingReport { .. }, PostReportEvent::ReportInserted(Ok(_))) => PostReportAction::LoadReport,
        (_, PostReportEvent::ReportLoaded(Err(x))) => fail(ReportError::Issue(x)),
        (PostReportState::LoadingReport { project_id, branch_id, testbed_id }, PostReportEvent::ReportLoaded(Ok(report_id))) =>
            PostReportAction::ProcessResults {
                project_id,
                branch_id,
                testbed_id,
                report_id,
                results: m.results.unwrap(),
                adapter: m.adapter,
                settings: m.settings.unwrap(),
            },
        (_, PostReportEvent::Processed { result, usage }) =>
            if m.plus {
                PostReportAction::CheckUsage { usage }
            } else {
                match result {
                    Ok(_) => PostReportAction::Convert,
                    Err(x) => fail(ReportError::Passed(x)),
                }
            },
        (_, PostReportEvent::UsageChecked(Err(u))) => fail(ReportError::Passed(u)),
        (PostReportState::CheckingUsage { processed }, PostReportEvent::UsageChecked(Ok(_))) =>
            match processed {
                Ok(_) => PostReportAction::Convert,
                Err(x) => fail(ReportError::Passed(x)),
            },
        (_, PostReportEvent::Converted(Err(x))) => fail(ReportError::Passed(x)),
        (_, PostReportEvent::Converted(Ok(r))) => PostReportAction::Respond(Ok(r)),
        _ => PostReportAction::Convert,
    }
}

impl<O, E> PostReport<O, E> {
    /// Begins posting a report to `project` for the user `user_id`: on
    /// `branch` and `testbed`, with the commit `hash`, the `results` and the
    /// `settings`, if any. The results are read by the adapter that the
    /// settings name, or the default one. `plus` says whether plan and usage
    /// are checked. First the user's permission to create in the project is
    /// checked.
    pub fn start<R>(
        plus: bool,
        project: String,
        user_id: i32,
        branch: String,
        testbed: String,
        hash: Option<String>,
        results: Vec<String>,
        settings: Option<JsonReportSettings<O>>,
    ) -> (res: (PostReport<O, E>, PostReportAction<R, O, E>))
        where O: Default,
        ensures
            res.0.plus == plus,
            res.0.user_id == user_id,
            res.0.branch == branch,
            res.0.testbed == testbed,
            res.0.hash == hash,
            res.0.results == Some(results),
            (res.0.settings is Some),
            (settings is Some) ==> res.0.settings == settings,
            (settings is None) ==> default_settings(res.0.settings.unwrap()),
            res.0.adapter == chosen_adapter(res.0.settings.unwrap()),
            res.0.state == PostReportState::<E>::Authorizing,
            post_holds_inputs(res.0),
            res.1 == (PostReportAction::<R, O, E>::Authorize { project, permission: Permission::Create }),
    {
        let settings = match settings {
            Some(s) => s,
            None => JsonReportSettings::default(),
        };
        let adapter = match settings.adapter {
            Some(a) => a,
            None => JsonAdapter::default(),
        };
        (
            PostReport {
                plus,
                user_id,
                branch,
                testbed,
                hash,
                results: Some(results),
                settings: Some(settings),
                adapter,
                state: PostReportState::Authorizing,
            },
            PostReportAction::Authorize { project, permission: Permission::Create },
        )
    }

    /// Whether `event` is the outcome that the post waits for.
    pub fn accepts<R>(&self, event: &PostReportEvent<R, E>) -> (r: bool)
        ensures
            r == post_accepts(self.state, *event),
    {
        match (&self.state, event) {
            (PostReportState::Authorizing, PostReportEvent::Authorized(_)) => true,
            (PostReportState::FindingBranch { .. }, PostReportEvent::BranchFound(_)) => true,
            (PostReportState::FindingTestbed { .. }, PostReportEvent::TestbedFound(_)) => true,
            (PostReportState::CheckingPlan { .. }, PostReportEvent::PlanChecked(_)) => true,
            (PostReportState::ResolvingVersion { .. }, PostReportEvent::VersionResolved(_)) => true,
            (PostReportState::InsertingReport { .. }, PostReportEvent::ReportInserted(_)) => true,
            (PostReportState::LoadingReport { .. }, PostReportEvent::ReportLoaded(_)) => true,
            (PostReportState::Processing, PostReportEvent::Processed { .. }) => true,
            (PostReportState::CheckingUsage { .. }, PostReportEvent::UsageChecked(_)) => true,
            (PostReportState::Converting, PostReportEvent::Converted(_)) => true,
            _ => false,
        }
    }

    /// Takes the outcome of the last action and returns the next one.
    pub fn step<R>(&mut self, event: PostReportEvent<R, E>) -> (action: PostReportAction<R, O, E>)
        requires
            post_accepts(old(self).state, event),
            post_holds_inputs(*old(self)),
        ensures
            final(self).plus == old(self).plus,
            final(self).user_id == old(self).user_id,
            final(self).branch == old(self).branch,
            final(self).testbed == old(self).testbed,
            final(self).hash == old(self).hash,
            final(self).adapter == old(self).adapter,
            final(self).state == post_transition(old(self).plus, old(self).state, event),
            action == post_action(*old(self), event),
            (if action is ProcessResults {
                (final(self).results is None) && (final(self).settings is None)
            } else {
                final(self).results == old(self).results && final(self).settings == old(self).settings
            }),
            post_holds_inputs(*final(self)),
    {
        let plus = self.plus;
        let adapter = self.adapter;
        let mut state = PostReportState::Done;
        std::mem::swap(&mut state, &mut self.state);
        match event {
            PostReportEvent::Authorized(Err(x)) => PostReportAction::Respond(Err(ReportError::Passed(x))),
            PostReportEvent::Authorized(Ok(project_id)) => {
                self.state = PostReportState::FindingBranch { project_id };
                PostReportAction::FindBranch { project_id, branch: self.branch.clone() }
            },
            PostReportEvent::BranchFound(Err(x)) => PostReportAction::Respond(Err(ReportError::Passed(x))),
            PostReportEvent::BranchFound(Ok(branch_id)) => match state {
                PostReportState::FindingBranch { project_id } => {
                    self.state = PostReportState::FindingTestbed { project_id, branch_id };
                    PostReportAction::FindTestbed { project_id, testbed: self.testbed.clone() }
                },
                _ => {
                    proof { assert(false); }
                    PostReportAction::Convert
                },
            },
            PostReportEvent::TestbedFound(Err(x)) => PostReportAction::Respond(Err(ReportError::Passed(x))),
            PostReportEvent::TestbedFound(Ok(testbed_id)) => match state {
                PostReportState::FindingTestbed { project_id, branch_id } => {
                    if plus {
                        self.state = PostReportState::CheckingPlan { project_id, branch_id, testbed_id };
                        PostReportAction::CheckPlan { project_id }
                    } else {
                        self.state = PostReportState::ResolvingVersion { project_id, branch_id, testbed_id };
                        PostReportAction::ResolveVersion { project_id, branch_id, hash: self.hash_copy() }
                    }
                },
                _ => {
                    proof { assert(false); }
                    PostReportAction::Convert
                },
            },
            PostReportEvent::PlanChecked(Err(x)) => PostReportAction::Respond(Err(ReportError::Passed(x))),
            PostReportEvent::PlanChecked(Ok(())) => match state {
                PostReportState::CheckingPlan { project_id, branch_id, testbed_id } => {
                    self.state = PostReportState::ResolvingVersion { project_id, branch_id, testbed_id };
                    PostReportAction::ResolveVersion { project_id, branch_id, hash: self.hash_copy() }
                },
                _ => {
                    proof { assert(false); }
                    PostReportAction::Convert
                },
            },
            PostReportEvent::VersionResolved(Err(x)) => PostReportAction::Respond(Err(ReportError::Passed(x))),
            PostReportEvent::VersionResolved(Ok(version_id)) => match state {
                PostReportState::ResolvingVersion { project_id, branch_id, testbed_id } => {
                    self.state = PostReportState::InsertingReport { project_id, branch_id, testbed_id };
                    PostReportAction::InsertReport {
                        user_id: self.user_id,
                        project_id,
                        branch_id,
                        version_id,
                        testbed_id,
                        adapter,
                    }
                },
                _ => {
                    proof { assert(false); }
                    PostReportAction::Convert
                },
            },
            PostReportEvent::ReportInserted(Err(x)) =>
                PostReportAction::Respond(Err(ReportError::Conflict(Resource::Report, x))),
            PostReportEvent::ReportInserted(Ok(())) => match state {
                PostReportState::InsertingReport { project_id, branch_id, testbed_id } => {
                    self.state = PostReportState::LoadingReport { project_id, branch_id, testbed_id };
                    PostReportAction::LoadReport
                },
                _ => {
                    proof { assert(false); }
                    PostReportAction::Convert
                },
            },
            PostReportEvent::ReportLoaded(Err(x)) => PostReportAction::Respond(Err(ReportError::Issue(x))),
            PostReportEvent::ReportLoaded(Ok(report_id)) => match state {
                PostReportState::LoadingReport { project_id, branch_id, testbed_id } => {
                    self.state = PostReportState::Processing;
                    let mut results = None;
                    std::mem::swap(&mut results, &mut self.results);
                    let mut settings = None;
                    std::mem::swap(&mut settings, &mut self.settings);
                    match (results, settings) {
                        (Some(results), Some(settings)) => PostReportAction::ProcessResults {
                            project_id,
                            branch_id,
                            testbed_id,
                            report_id,
                            results,
                            adapter,
                            settings,
                        },
                        _ => {
                            proof { assert(false); }
                            PostReportAction::Convert
                        },
                    }
                },
                _ => {
                    proof { assert(false); }
                    PostReportAction::Convert
                },
            },
            PostReportEvent::Processed { result, usage } => {
                if plus {
                    self.state = PostReportState::CheckingUsage { processed: result };
                    PostReportAction::CheckUsage { usage }
                } else {
                    match result {
                        Ok(()) => {
                            self.state = PostReportState::Converting;
                            PostReportAction::Convert
                        },
                        Err(x) => PostReportAction::Respond(Err(ReportError::Passed(x))),
                    }
                }
            },
            PostReportEvent::UsageChecked(Err(u)) => PostReportAction::Respond(Err(ReportError::Passed(u))),
            PostReportEvent::UsageChecked(Ok(())) => match state {
                PostReportState::CheckingUsage { processed } => match processed {
                    Ok(()) => {
                        self.state = PostReportState::Converting;
                        PostReportAction::Convert
                    },
                    Err(x) => PostReportAction::Respond(Err(ReportError::Passed(x))),
                },
                _ => {
                    proof { assert(false); }
                    PostReportAction::Convert
                },
            },
            PostReportEvent::Converted(Err(x)) => PostReportAction::Respond(Err(ReportError::Passed(x))),
            PostReportEvent::Converted(Ok(report)) => PostReportAction::Respond(Ok(report)),
        }
    }

    /// The report's commit hash, copied.
    fn hash_copy(&self) -> (hash: Option<String>)
        ensures
            hash == self.hash,
    {
        match &self.hash {
            Some(h) => Some(h.clone()),
            None => None,
        }
    }
}

/// The state reached from `s` after the outcomes `events`, in order.
pub open spec fn post_run<R, E>(plus: bool, s: PostReportState<E>, events: Seq<PostReportEvent<R, E>>) -> PostReportState<E>
    decreases events.len(),
{
    if events.len() == 0 {
        s
    } else {
        post_transition(plus, post_run(plus, s, events.drop_last()), events.last())
    }
}

/// The outcome that the report's results were processed without error.
pub open spec fn processed_ok<R, E>(e: PostReportEvent<R, E>) -> bool {
    e matches PostReportEvent::Processed { result: Ok(_), .. }
}

/// The outcome that the metered usage check passed.
pub open spec fn usage_ok<R, E>(e: PostReportEvent<R, E>) -> bool {
    e matches PostReportEvent::UsageChecked(Ok(_))
}

/// The results were processed without error and, in metered builds, the
/// usage check passed after that.
pub open spec fn results_accepted<R, E>(plus: bool, events: Seq<PostReportEvent<R, E>>) -> bool {
    if plus {
        exists|i: int, j: int|
            0 <= i < j < events.len() && processed_ok(#[trigger] events[i]) && usage_ok(#[trigger] events[j])
    } else {
        exists|i: int| 0 <= i < events.len() && processed_ok(#[trigger] events[i])
    }
}

proof fn lemma_post_run_invariant<R, E>(plus: bool, events: Seq<PostReportEvent<R, E>>)
    ensures
        ({
            let s = post_run(plus, PostReportState::<E>::Authorizing, events);
            &&& (s matches PostReportState::CheckingUsage { processed: Ok(_) }) ==> exists|i: int|
                0 <= i < events.len() && processed_ok(#[trigger] events[i])
            &&& s is Converting ==> results_accepted(plus, events)
        }),
    decreases events.len(),
{
    if events.len() > 0 {
        let p = events.drop_last();
        lemma_post_run_invariant(plus, p);
        let s = post_run(plus, PostReportState::<E>::Authorizing, p);
        let n = events.len() - 1;
        assert(events[n] == events.last());
        assert forall|i: int| 0 <= i < p.len() implies #[trigger] events[i] == p[i] by {}
        if s matches PostReportState::CheckingUsage { processed: Ok(_) } {
            let i = choose|i: int| 0 <= i < p.len() && processed_ok(#[trigger] p[i]);
            assert(events[i] == p[i]);
            if usage_ok(events[n]) && plus {
                assert(processed_ok(events[i]) && usage_ok(events[n]));
            }
        }
        if s is Converting && results_accepted(plus, p) {
            if plus {
                let (i, j) = choose|i: int, j: int|
                    0 <= i < j < p.len() && processed_ok(#[trigger] p[i]) && usage_ok(#[trigger] p[j]);
                assert(events[i] == p[i] && events[j] == p[j]);
            } else {
                let i = choose|i: int| 0 <= i < p.len() && processed_ok(#[trigger] p[i]);
                assert(events[i] == p[i]);
            }
        }
    }
}

/// A posted report is answered with its results only after they were
/// processed without error and, in metered builds, the usage check passed
/// after the processing: every run from the start that reaches the final
/// conversion has seen those outcomes.
pub proof fn law_report_returned_only_when_accepted<R, E>(plus: bool, events: Seq<PostReportEvent<R, E>>)
    ensures
        post_run(plus, PostReportState::<E>::Authorizing, events) is Converting ==> results_accepted(
            plus,
            events,
        ),
{
    lemma_post_run_invariant(plus, events);
}

/// In metered builds an error from processing the results is not answered
/// until the usage has been checked: the processing outcome waits, a failed
/// usage check is answered with its own error, and a passed one with the
/// processing error.
pub proof fn law_processing_error_waits_for_usage<R, O, E>(m: PostReport<O, E>, x: E, u: E, usage: u64)
    requires
        m.plus,
    ensures
        ({
            let processing = PostReport { state: PostReportState::Processing, ..m };
            let processed = PostReportEvent::<R, E>::Processed { result: Err(x), usage };
            &&& post_transition(true, PostReportState::Processing, processed)
                == PostReportState::CheckingUsage { processed: Err::<(), E>(x) }
            &&& post_action(processing, processed) == PostReportAction::<R, O, E>::CheckUsage { usage }
        }),
        ({
            let waiting = PostReport { state: PostReportState::CheckingUsage { processed: Err(x) }, ..m };
            let failed = PostReportEvent::<R, E>::UsageChecked(Err(u));
            let passed = PostReportEvent::<R, E>::UsageChecked(Ok(()));
            &&& post_transition(true, waiting.state, failed) == PostReportState::<E>::Done
            &&& post_action(waiting, failed) == PostReportAction::<R, O, E>::Respond(Err(ReportError::Passed(u)))
            &&& post_transition(true, waiting.state, passed) == PostReportState::<E>::Done
            &&& post_action(waiting, passed) == PostReportAction::<R, O, E>::Respond(Err(ReportError::Passed(x)))
        }),
{
}

/// A post whose every step succeeds returns the report: from the start, the
/// outcomes that the user may create in project `p`, that the branch is `b`
/// and the testbed `t`, (in metered builds, that the plan allows it), that the
/// version is `v`, that the row was inserted and loaded as `rid`, that the
/// results were processed (and, in metered builds, that the usage check
/// passed) are each the one the post waits for, and they lead to converting
/// the report, whose JSON form `report` is then the answer.
pub proof fn law_successful_post_returns_report<R, O, E>(
    m: PostReport<O, E>,
    p: i32,
    b: i32,
    t: i32,
    v: i32,
    rid: i32,
    usage: u64,
    report: R,
)
    ensures
        ({
            let plus = m.plus;
            let e1 = PostReportEvent::<R, E>::Authorized(Ok(p));
            let s1 = post_transition(plus, PostReportState::<E>::Authorizing, e1);
            let e2 = PostReportEvent::<R, E>::BranchFound(Ok(b));
            let s2 = post_transition(plus, s1, e2);
            let e3 = PostReportEvent::<R, E>::TestbedFound(Ok(t));
            let s3 = post_transition(plus, s2, e3);
            let plan = PostReportEvent::<R, E>::PlanChecked(Ok(()));
            let s3b = if plus { post_transition(plus, s3, plan) } else { s3 };
            let e4 = PostReportEvent::<R, E>::VersionResolved(Ok(v));
            let s4 = post_transition(plus, s3b, e4);
            let e5 = PostReportEvent::<R, E>::ReportInserted(Ok(()));
            let s5 = post_transition(plus, s4, e5);
            let e6 = PostReportEvent::<R, E>::ReportLoaded(Ok(rid));
            let s6 = post_transition(plus, s5, e6);
            let e7 = PostReportEvent::<R, E>::Processed { result: Ok(()), usage };
            let s7 = post_transition(plus, s6, e7);
            let checked = PostReportEvent::<R, E>::UsageChecked(Ok(()));
            let s7b = if plus { post_transition(plus, s7, checked) } else { s7 };
            let e8 = PostReportEvent::<R, E>::Converted(Ok(report));
            &&& post_accepts(PostReportState::<E>::Authorizing, e1)
            &&& post_accepts(s1, e2)
            &&& post_accepts(s2, e3)
            &&& (plus ==> post_accepts(s3, plan))
            &&& post_accepts(s3b, e4)
            &&& post_accepts(s4, e5)
            &&& post_accepts(s5, e6)
            &&& post_accepts(s6, e7)
            &&& (plus ==> post_accepts(s7, checked))
            &&& s7b == PostReportState::<E>::Converting
            &&& post_accepts(s7b, e8)
            &&& post_action(PostReport { state: s7b, ..m }, e8) == PostReportAction::<R, O, E>::Respond(Ok(report))
            &&& post_transition(plus, s7b, e8) == PostReportState::<E>::Done
        }),
{
}

/// Without metering, results processed without error lead straight to
/// converting the report.
pub proof fn law_processed_results_lead_to_conversion<R, E>(usage: u64)
    ensures
        post_transition(false, PostReportState::<E>::Processing, PostReportEvent::<R, E>::Processed { result: Ok(()), usage })
            == PostReportState::<E>::Converting,
{
}

} // verus!

//! The CLI's subcommands on organizations, branches and testbeds, and the
//! request bodies they send.
//!
//! Identifiers, names and slugs arrive already validated by the argument
//! parser and are held as their text. `B` is the backend that sends the
//! request, built from the parsed backend arguments `C`.
use vstd::prelude::*;

verus! {

/// Parsed arguments of `organization view`.
pub struct CliOrganizationView<C> {
    pub organization: String,
    pub backend: C,
}

/// The `organization view` subcommand.
pub struct View<B> {
    pub organization: String,
    pub backend: B,
}

/// Parsed start-point arguments of `branch create`.
pub struct CliBranchStartPoint {
    pub start_point_branch: Option<String>,
    pub start_point_thresholds: bool,
}

/// Parsed arguments of `branch create`.
pub struct CliBranchCreate<C> {
    pub project: String,
    pub name: String,
    pub slug: Option<String>,
    pub soft: bool,
    pub start_point: CliBranchStartPoint,
    pub backend: C,
}

/// The `branch create` subcommand.
pub struct Create<B> {
    pub project: String,
    pub name: String,
    pub slug: Option<String>,
    pub soft: bool,
    pub start_point_branch: Option<String>,
    pub start_point_thresholds: bool,
    pub backend: B,
}

/// Parsed arguments of `testbed update`.
pub struct CliTestbedUpdate<C> {
    pub project: String,
    pub testbed: String,
    pub name: Option<String>,
    pub slug: Option<String>,
    pub backend: C,
}

/// The `testbed update` subcommand.
pub struct Update<B> {
    pub project: String,
    pub testbed: String,
    pub name: Option<String>,
    pub slug: Option<String>,
    pub backend: B,
}

/// Where a new branch starts from.
pub struct JsonStartPoint {
    pub branch: String,
    pub thresholds: Option<bool>,
}

/// The body of a request that creates a branch.
pub struct JsonNewBranch {
    pub name: String,
    pub slug: Option<String>,
    pub soft: Option<bool>,
    pub start_point: Option<JsonStartPoint>,
}

/// The body of a request that updates a testbed.
pub struct JsonUpdateTestbed {
    pub name: Option<String>,
    pub slug: Option<String>,
}

/// The outcome of building a subcommand from parsed arguments whose backend
/// converts to `converted`: the subcommand with that backend, or the
/// conversion's error.
pub open spec fn with_backend<T, B, E>(converted: Result<B, E>, build: spec_fn(B) -> T) -> Result<T, E> {
    match converted {
        Ok(b) => Ok(build(b)),
        Err(e) => Err(e),
    }
}

impl<B> View<B> {
    /// Builds the subcommand; it fails only where the backend arguments do
    /// not convert.
    pub fn try_from_cli<C>(view: CliOrganizationView<C>) -> (res: Result<View<B>, <B as TryFrom<C>>::Error>)
        where B: TryFrom<C>,
        ensures
            exists|converted: Result<B, <B as TryFrom<C>>::Error>|
                call_ensures(B::try_from, (view.backend,), converted) && res == with_backend(
                    converted,
                    |b: B| View { organization: view.organization, backend: b },
                ),
    {
        let CliOrganizationView { organization, backend } = view;
        let converted = B::try_from(backend);
        match converted {
            Ok(backend) => Ok(View { organization, backend }),
            Err(e) => Err(e),
        }
    }
}

impl<B> Create<B> {
    /// Builds the subcommand, flattening the start-point arguments; it fails
    /// only where the backend arguments do not convert.
    pub fn try_from_cli<C>(create: CliBranchCreate<C>) -> (res: Result<Create<B>, <B as TryFrom<C>>::Error>)
        where B: TryFrom<C>,
        ensures
            exists|converted: Result<B, <B as TryFrom<C>>::Error>|
                call_ensures(B::try_from, (create.backend,), converted) && res == with_backend(
                    converted,
                    |b: B|
                        Create {
                            project: create.project,
                            name: create.name,
                            slug: create.slug,
                            soft: create.soft,
                            start_point_branch: create.start_point.start_point_branch,
                            start_point_thresholds: create.start_point.start_point_thresholds,
                            backend: b,
                        },
                ),
    {
        let CliBranchCreate { project, name, slug, soft, start_point, backend } = create;
        let CliBranchStartPoint { start_point_branch, start_point_thresholds } = start_point;
        match B::try_from(backend) {
            Ok(backend) => Ok(
                Create { project, name, slug, soft, start_point_branch, start_point_thresholds, backend },
            ),
            Err(e) => Err(e),
        }
    }
}

impl<B> Update<B> {
    /// Builds the subcommand; it fails only where the backend arguments do
    /// not convert.
    pub fn try_from_cli<C>(update: CliTestbedUpdate<C>) -> (res: Result<Update<B>, <B as TryFrom<C>>::Error>)
        where B: TryFrom<C>,
        ensures
            exists|converted: Result<B, <B as TryFrom<C>>::Error>|
                call_ensures(B::try_from, (update.backend,), converted) && res == with_backend(
                    converted,
                    |b: B|
                        Update {
                            project: update.project,
                            testbed: update.testbed,
                            name: update.name,
                            slug: update.slug,
                            backend: b,
                        },
                ),
    {
        let CliTestbedUpdate { project, testbed, name, slug, backend } = update;
        match B::try_from(backend) {
            Ok(backend) => Ok(Update { project, testbed, name, slug, backend }),
            Err(e) => Err(e),
        }
    }
}

/// The branch that a `branch create` subcommand asks for: its name and slug,
/// whether it is soft, and, where a start-point branch is given, that branch
/// with the thresholds flag.
pub open spec fn new_branch_of<B>(create: Create<B>) -> JsonNewBranch {
    JsonNewBranch {
        name: create.name,
        slug: create.slug,
        soft: Some(create.soft),
        start_point: match create.start_point_branch {
            Some(branch) => Some(JsonStartPoint { branch, thresholds: Some(create.start_point_thresholds) }),
            None => None,
        },
    }
}

impl<B> From<Create<B>> for JsonNewBranch {
    fn from(create: Create<B>) -> (branch: JsonNewBranch)
        ensures
            branch.name == create.name,
            branch.slug == create.slug,
            branch.soft == Some(create.soft),
            branch.start_point is Some <==> create.start_point_branch is Some,
            create.start_point_branch is Some ==> branch.start_point.unwrap().branch == create.start_point_branch.unwrap(),
            create.start_point_branch is Some ==> branch.start_point.unwrap().thresholds == Some(create.start_point_thresholds),
    {
        let Create { name, slug, soft, start_point_branch, start_point_thresholds, .. } = create;
        let start_point = match start_point_branch {
            Some(branch) => Some(JsonStartPoint { branch, thresholds: Some(start_point_thresholds) }),
            None => None,
        };
        JsonNewBranch { name, slug, soft: Some(soft), start_point }
    }
}

impl<B> vstd::std_specs::convert::FromSpecImpl<Create<B>> for JsonNewBranch {
    open spec fn obeys_from_spec() -> bool {
        true
    }

    open spec fn from_spec(create: Create<B>) -> JsonNewBranch {
        new_branch_of(create)
    }
}

/// The changes that a `testbed update` subcommand asks for: the new name and
/// slug, where given.
pub open spec fn testbed_update_of<B>(update: Update<B>) -> JsonUpdateTestbed {
    JsonUpdateTestbed { name: update.name, slug: update.slug }
}

impl<B> From<Update<B>> for JsonUpdateTestbed {
    fn from(update: Update<B>) -> (changes: JsonUpdateTestbed)
        ensures
            changes.name == update.name,
            changes.slug == update.slug,
    {
        let Update { name, slug, .. } = update;
        JsonUpdateTestbed { name, slug }
    }
}

impl<B> vstd::std_specs::convert::FromSpecImpl<Update<B>> for JsonUpdateTestbed {
    open spec fn obeys_from_spec() -> bool {
        true
    }

    open spec fn from_spec(update: Update<B>) -> JsonUpdateTestbed {
        testbed_update_of(update)
    }
}

/// The body that creates a branch asks for the subcommand's name and slug,
/// says whether the branch is soft as the subcommand does, and has a start
/// point exactly where the subcommand names a start-point branch: that branch,
/// with the subcommand's thresholds flag.
pub proof fn law_new_branch_follows_subcommand<B>(create: Create<B>)
    ensures
        ({
            let body = <JsonNewBranch as vstd::std_specs::convert::FromSpec<Create<B>>>::from_spec(create);
            &&& body.name == create.name
            &&& body.slug == create.slug
            &&& body.soft == Some(create.soft)
            &&& (body.start_point is Some <==> create.start_point_branch is Some)
            &&& (create.start_point_branch is Some ==> {
                &&& body.start_point.unwrap().branch == create.start_point_branch.unwrap()
                &&& body.start_point.unwrap().thresholds == Some(create.start_point_thresholds)
            })
        }),
{
}

/// The body that updates a testbed asks for the subcommand's new name and
/// new slug, each where given, and nothing else.
pub proof fn law_testbed_update_follows_subcommand<B>(update: Update<B>)
    ensures
        ({
            let changes = <JsonUpdateTestbed as vstd::std_specs::convert::FromSpec<Update<B>>>::from_spec(update);
            &&& changes.name == update.name
            &&& changes.slug == update.slug
        }),
{
}

} // verus!

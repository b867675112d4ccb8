use bencher_core::cli::{
    CliBranchCreate, CliBranchStartPoint, CliOrganizationView, CliTestbedUpdate, Create, JsonNewBranch,
    JsonUpdateTestbed, Update, View,
};
use bencher_core::parser::CliLanguage;

struct Backend(String);

impl TryFrom<&'static str> for Backend {
    type Error = String;
    fn try_from(host: &'static str) -> Result<Self, Self::Error> {
        if host.starts_with("http") {
            Ok(Backend(host.to_string()))
        } else {
            Err(format!("bad host {host}"))
        }
    }
}

fn branch_args(start_point_branch: Option<&str>, host: &'static str) -> CliBranchCreate<&'static str> {
    CliBranchCreate {
        project: "proj".to_string(),
        name: "feature".to_string(),
        slug: Some("feature-slug".to_string()),
        soft: true,
        start_point: CliBranchStartPoint {
            start_point_branch: start_point_branch.map(str::to_string),
            start_point_thresholds: true,
        },
        backend: host,
    }
}

#[test]
fn branch_create_flattens_start_point() {
    let create: Create<Backend> = Create::try_from_cli(branch_args(Some("main"), "https://api")).unwrap();
    assert_eq!(create.project, "proj");
    assert_eq!(create.start_point_branch.as_deref(), Some("main"));
    assert!(create.start_point_thresholds);
    assert_eq!(create.backend.0, "https://api");
    let body = JsonNewBranch::from(create);
    assert_eq!(body.name, "feature");
    assert_eq!(body.slug.as_deref(), Some("feature-slug"));
    assert_eq!(body.soft, Some(true));
    let start_point = body.start_point.unwrap();
    assert_eq!(start_point.branch, "main");
    assert_eq!(start_point.thresholds, Some(true));
}

#[test]
fn branch_without_start_point() {
    let create: Create<Backend> = Create::try_from_cli(branch_args(None, "https://api")).unwrap();
    let body = JsonNewBranch::from(create);
    assert!(body.start_point.is_none());
}

#[test]
fn bad_backend_fails_the_subcommand() {
    let created: Result<Create<Backend>, String> = Create::try_from_cli(branch_args(None, "ftp"));
    assert_eq!(created.err().as_deref(), Some("bad host ftp"));
    let viewed: Result<View<Backend>, String> =
        View::try_from_cli(CliOrganizationView { organization: "org".to_string(), backend: "nope" });
    assert!(viewed.is_err());
}

#[test]
fn organization_view_keeps_organization() {
    let view: View<Backend> =
        View::try_from_cli(CliOrganizationView { organization: "org".to_string(), backend: "http://x" }).unwrap();
    assert_eq!(view.organization, "org");
}

#[test]
fn testbed_update_sends_name_and_slug() {
    let update: Update<Backend> = Update::try_from_cli(CliTestbedUpdate {
        project: "proj".to_string(),
        testbed: "bed".to_string(),
        name: Some("New".to_string()),
        slug: None,
        backend: "https://api",
    })
    .unwrap();
    assert_eq!(update.testbed, "bed");
    let changes = JsonUpdateTestbed::from(update);
    assert_eq!(changes.name.as_deref(), Some("New"));
    assert_eq!(changes.slug, None);
}

#[test]
fn languages_by_name_and_alias() {
    let all = [
        (CliLanguage::German, "german", "de"),
        (CliLanguage::Spanish, "spanish", "es"),
        (CliLanguage::French, "french", "fr"),
        (CliLanguage::Japanese, "japanese", "ja"),
        (CliLanguage::Korean, "korean", "ko"),
        (CliLanguage::Portuguese, "portuguese", "pt"),
        (CliLanguage::Russian, "russian", "ru"),
        (CliLanguage::Chinese, "chinese", "zh"),
    ];
    for (language, name, alias) in all {
        assert_eq!(language.name(), name);
        assert_eq!(language.alias(), alias);
        assert_eq!(CliLanguage::from_text(name), Some(language));
        assert_eq!(CliLanguage::from_text(alias), Some(language));
    }
}

#[test]
fn unknown_language_text() {
    assert_eq!(CliLanguage::from_text("German"), None);
    assert_eq!(CliLanguage::from_text("klingon"), None);
    assert_eq!(CliLanguage::from_text(""), None);
}

use bencher_core::adapter::JsonAdapter;
use bencher_core::endpoint::{Endpoint, OrgEndpoint, UserEndpoint};

#[test]
fn endpoint_shows_the_endpoint_it_wraps() {
    assert_eq!(Endpoint::Org(OrgEndpoint::Report).as_str(), "Report");
    assert_eq!(Endpoint::Org(OrgEndpoint::Threshold).as_str(), "Threshold");
    assert_eq!(Endpoint::User(UserEndpoint::Token).as_str(), "Token");
}

#[test]
fn org_endpoints_show_their_names() {
    let all = [
        (OrgEndpoint::Benchmark, "Benchmark"),
        (OrgEndpoint::Branch, "Branch"),
        (OrgEndpoint::Perf, "Perf"),
        (OrgEndpoint::Ping, "Ping"),
        (OrgEndpoint::Project, "Project"),
        (OrgEndpoint::Report, "Report"),
        (OrgEndpoint::Testbed, "Testbed"),
        (OrgEndpoint::Threshold, "Threshold"),
    ];
    for (endpoint, name) in all {
        assert_eq!(endpoint.as_str(), name);
    }
}

#[test]
fn default_adapter_is_magic() {
    assert_eq!(JsonAdapter::default(), JsonAdapter::Magic);
}

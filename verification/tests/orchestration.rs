use spira::client::{
    parse_requirements_count, project_path, projects_path, requirement_path,
    requirements_count_path, requirements_list_path, requirements_list_step, ListStep,
    SpiraClient,
};
use spira::{SpiraError, SupportSpiraVersions};

#[test]
fn new_accepts_the_implemented_version() {
    let client = SpiraClient::new("http://example", SupportSpiraVersions::V5_0, "user", "key")
        .unwrap();
    assert_eq!(client.base_url(), "http://example");
    assert_eq!(client.username(), "user");
    assert_eq!(client.api_key(), "key");
    assert!(matches!(client.version(), SupportSpiraVersions::V5_0));
}

#[test]
fn new_refuses_unimplemented_versions() {
    for v in [
        SupportSpiraVersions::V4_0,
        SupportSpiraVersions::V6_0,
        SupportSpiraVersions::V7_0,
    ] {
        match SpiraClient::new("http://example", v, "", "") {
            Err(SpiraError::UnsupportedVersion { .. }) => {},
            other => panic!("expected UnsupportedVersion, got {:?}", other.map(|_| ())),
        }
    }
}

#[test]
fn url_version_names_the_implemented_segment() {
    let client = SpiraClient::new("http://example", SupportSpiraVersions::V5_0, "", "").unwrap();
    assert_eq!(client.url_version().unwrap(), "v5_0");
}

#[test]
fn request_url_has_the_service_shape() {
    let client = SpiraClient::new("http://example", SupportSpiraVersions::V5_0, "", "").unwrap();
    assert_eq!(
        client.request_url("projects").unwrap(),
        "http://example/Services/v5_0/RestService.svc/projects"
    );
}

#[test]
fn resource_paths() {
    assert_eq!(projects_path(), "projects");
    assert_eq!(project_path(5), "projects/5");
    assert_eq!(requirements_count_path(5), "projects/5/requirements/count");
    assert_eq!(requirement_path(5, 17), "projects/5/requirements/17");
    assert_eq!(
        requirements_list_path(5, 2),
        "projects/5/requirements?starting_row=1&number_of_rows=2"
    );
}

#[test]
fn count_body_parses() {
    assert_eq!(parse_requirements_count("2").unwrap(), 2);
    assert_eq!(parse_requirements_count("0").unwrap(), 0);
    assert_eq!(parse_requirements_count("18446744073709551615").unwrap(), u64::MAX);
}

#[test]
fn count_body_that_is_not_a_number_is_malformed() {
    for body in ["", "two", "2 ", "-1", "18446744073709551616"] {
        match parse_requirements_count(body) {
            Err(SpiraError::MalformedPayload { detail }) => assert_eq!(detail, body),
            other => panic!("expected MalformedPayload for {:?}, got {:?}", body, other),
        }
    }
}

#[test]
fn zero_count_issues_no_list_request() {
    match requirements_list_step(5, "0").unwrap() {
        ListStep::NoRequest => {},
        other => panic!("expected NoRequest, got {:?}", other),
    }
}

#[test]
fn positive_count_issues_exactly_one_list_request() {
    match requirements_list_step(5, "2").unwrap() {
        ListStep::Fetch(path) => {
            assert_eq!(path, "projects/5/requirements?starting_row=1&number_of_rows=2");
        },
        other => panic!("expected Fetch, got {:?}", other),
    }
}

#[test]
fn malformed_count_stops_the_list_protocol() {
    assert!(matches!(
        requirements_list_step(5, "nope"),
        Err(SpiraError::MalformedPayload { .. })
    ));
}

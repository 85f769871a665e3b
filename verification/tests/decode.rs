use std::sync::Arc;

use spira::client::SpiraClient;
use spira::date::Timestamp;
use spira::json::JsonValue;
use spira::project::Project;
use spira::requirement::{
    Requirement, RequirementImportance, RequirementStatus, RequirementType,
};
use spira::{SpiraError, SupportSpiraVersions};

fn client() -> Arc<SpiraClient> {
    SpiraClient::new("http://example", SupportSpiraVersions::V5_0, "", "").unwrap()
}

fn project_json(name: &str, id: u64) -> String {
    format!(
        "{{\"Active\":true,\"CreationDate\":\"/Date(1707863960317-0600)/\",\
         \"Description\":\"<p>This is a description.</p>\",\"Name\":\"{}\",\
         \"NonWorkingHours\":0,\"ProjectId\":{},\"Website\":\"\",\
         \"WorkingDays\":5,\"WorkingHours\":8}}",
        name, id
    )
}

fn requirement_json(name: &str, id: u64, status_id: u64) -> String {
    format!(
        "{{\"RequirementId\":{},\"StatusId\":{},\"AuthorId\":10,\"OwnerId\":null,\
         \"ImportanceId\":2,\"ReleaseId\":7,\"ComponentId\":null,\"Name\":\"{}\",\
         \"Description\":\"Something to build\",\
         \"CreationDate\":\"/Date(1707863960317-0600)/\",\
         \"LastUpdateDate\":\"/Date(1707863960500-0600)/\",\"Summary\":false,\
         \"ReleaseVersionNumber\":\"1.0\",\"ProjectId\":5,\
         \"CustomProperties\":{{\"Custom_01\":\"x\",\"Custom_02\":3}}}}",
        id, status_id, name
    )
}

#[test]
fn projects() {
    let body = format!("[{},{}]", project_json("Project1", 5), project_json("Project2", 6));
    let projects = Project::projects_from_json(&body, &client()).unwrap();
    assert_eq!(projects.len(), 2);
    let project = projects.get(0).unwrap();
    assert_eq!(project.name(), "Project1");
    assert_eq!(project.id(), 5);
    assert_eq!(projects.get(1).unwrap().name(), "Project2");
    assert_eq!(projects.get(1).unwrap().id(), 6);
}

#[test]
fn project_fields_decode_exactly() {
    let p = Project::project_from_json(&project_json("Project1", 5), &client()).unwrap();
    assert_eq!(p.id(), 5);
    assert_eq!(p.name(), "Project1");
    assert_eq!(p.description(), "<p>This is a description.</p>");
    assert_eq!(
        p.creation_date(),
        Timestamp { epoch_millis: 1707863960317, offset_minutes: -360 }
    );
}

#[test]
fn project_by_id() {
    let outcome = Project::lookup_outcome(&project_json("Project1", 5), &client()).unwrap();
    let project = outcome.unwrap();
    assert_eq!(project.name(), "Project1");
}

#[test]
fn project_sentinel_body_means_absent_not_error() {
    let outcome = Project::lookup_outcome(
        "\"Cannot find the supplied project id in the system\"",
        &client(),
    )
    .unwrap();
    assert!(outcome.is_none());
}

#[test]
fn project_unparsable_body_is_a_decode_error() {
    match Project::lookup_outcome("this is not json", &client()) {
        Err(SpiraError::MalformedPayload { detail }) => assert_eq!(detail, "this is not json"),
        other => panic!("expected MalformedPayload, got {:?}", other.map(|_| ())),
    }
}

#[test]
fn project_by_name() {
    let body = format!("[{},{}]", project_json("Project1", 5), project_json("Project2", 6));
    let project = Project::by_name_outcome(&body, "Project2", &client()).unwrap().unwrap();
    assert_eq!(project.name(), "Project2");
    assert_eq!(project.id(), 6);
}

#[test]
fn project_by_name_first_match_in_service_order_wins() {
    let body = format!(
        "[{},{},{}]",
        project_json("Same", 1),
        project_json("Same", 2),
        project_json("Other", 3)
    );
    let project = Project::by_name_outcome(&body, "Same", &client()).unwrap().unwrap();
    assert_eq!(project.id(), 1);
}

#[test]
fn project_by_name_without_match_is_absent() {
    let body = format!("[{}]", project_json("Project1", 5));
    assert!(Project::by_name_outcome(&body, "Nowhere", &client()).unwrap().is_none());
}

#[test]
fn project_missing_required_field_names_it() {
    let body = "{\"ProjectId\":5,\"Description\":\"d\",\"CreationDate\":\"/Date(1-0600)/\"}";
    match Project::project_from_json(body, &client()) {
        Err(SpiraError::MissingField { field, object_keys }) => {
            assert_eq!(field, "Name");
            assert_eq!(object_keys, vec!["CreationDate", "Description", "ProjectId"]);
        },
        other => panic!("expected MissingField, got {:?}", other.map(|_| ())),
    }
}

#[test]
fn project_wrong_field_type_is_malformed() {
    let body = "{\"ProjectId\":\"five\",\"Name\":\"n\",\"Description\":\"d\",\
                \"CreationDate\":\"/Date(1-0600)/\"}";
    match Project::project_from_json(body, &client()) {
        Err(SpiraError::MalformedPayload { detail }) => assert_eq!(detail, "ProjectId"),
        other => panic!("expected MalformedPayload, got {:?}", other.map(|_| ())),
    }
}

#[test]
fn project_non_array_list_payload_is_malformed() {
    match Project::projects_from_json("{}", &client()) {
        Err(SpiraError::MalformedPayload { detail }) => {
            assert_eq!(detail, "projects payload is not a JSON array");
        },
        other => panic!("expected MalformedPayload, got {:?}", other.map(|_| ())),
    }
}

#[test]
fn project_round_trip_preserves_fields() {
    let c = client();
    let p = Project::project_from_json(&project_json("Project1", 5), &c).unwrap();
    let encoded = p.encode();
    let again = Project::decode(&encoded, &c).unwrap();
    assert_eq!(again.id(), p.id());
    assert_eq!(again.name(), p.name());
    assert_eq!(again.description(), p.description());
    assert_eq!(again.creation_date(), p.creation_date());
}

#[test]
fn requirements() {
    let body = format!(
        "[{},{}]",
        requirement_json("Requirement 1", 5, 1),
        requirement_json("Requirement 2", 6, 2)
    );
    let requirements = Requirement::requirements_from_json(&body, 5).unwrap();
    assert_eq!(requirements.len(), 2);
    let requirement = requirements.get(0).unwrap();
    assert_eq!(requirement.name(), "Requirement 1");
    assert_eq!(requirements.get(1).unwrap().name(), "Requirement 2");
}

#[test]
fn requirement_fields_decode_exactly() {
    let q = Requirement::requirement_from_json(&requirement_json("Requirement 1", 5, 1), 9)
        .unwrap();
    assert_eq!(q.id(), 5);
    assert!(matches!(q.status(), RequirementStatus::Requested));
    assert_eq!(q.author_id(), 10);
    assert_eq!(q.owner_id(), None);
    assert!(matches!(q.importance(), Some(RequirementImportance::High)));
    assert_eq!(q.release_id(), Some(7));
    assert_eq!(q.component_id(), None);
    assert_eq!(q.name(), "Requirement 1");
    assert_eq!(q.description().as_deref(), Some("Something to build"));
    assert_eq!(
        q.creation_date(),
        Timestamp { epoch_millis: 1707863960317, offset_minutes: -360 }
    );
    assert_eq!(
        q.last_updated_date(),
        Timestamp { epoch_millis: 1707863960500, offset_minutes: -360 }
    );
    assert!(!q.summary());
    assert_eq!(q.release_version_number().as_deref(), Some("1.0"));
    // project_id comes from the fetch context, not from the payload
    assert_eq!(q.project_id(), 9);
    let custom = q.custom_properties().as_ref().unwrap();
    assert_eq!(custom.len(), 2);
    assert_eq!(custom[0].0, "Custom_01");
    assert!(matches!(&custom[0].1, JsonValue::Str(s) if s == "x"));
    assert_eq!(custom[1].0, "Custom_02");
    assert!(matches!(&custom[1].1, JsonValue::UInt(3)));
}

#[test]
fn requirement_status_eleven_is_an_unknown_enum_code() {
    match Requirement::requirement_from_json(&requirement_json("R", 5, 11), 5) {
        Err(SpiraError::UnknownEnumCode { field, value }) => {
            assert_eq!(field, "StatusId");
            assert_eq!(value, 11);
        },
        other => panic!("expected UnknownEnumCode, got {:?}", other.map(|_| ())),
    }
}

#[test]
fn requirement_unknown_importance_is_an_unknown_enum_code() {
    let body = requirement_json("R", 5, 1).replace("\"ImportanceId\":2", "\"ImportanceId\":9");
    match Requirement::requirement_from_json(&body, 5) {
        Err(SpiraError::UnknownEnumCode { field, value }) => {
            assert_eq!(field, "ImportanceId");
            assert_eq!(value, 9);
        },
        other => panic!("expected UnknownEnumCode, got {:?}", other.map(|_| ())),
    }
}

#[test]
fn requirement_null_importance_is_no_value() {
    let body = requirement_json("R", 5, 1).replace("\"ImportanceId\":2", "\"ImportanceId\":null");
    let q = Requirement::requirement_from_json(&body, 5).unwrap();
    assert!(q.importance().is_none());
}

#[test]
fn requirement_element_error_keeps_the_index_and_cause() {
    let body = format!(
        "[{},{}]",
        requirement_json("Good", 1, 1),
        requirement_json("Bad", 2, 11)
    );
    match Requirement::requirements_from_json(&body, 5) {
        Err(SpiraError::ElementError { index, cause }) => {
            assert_eq!(index, 1);
            assert!(matches!(*cause, SpiraError::UnknownEnumCode { value: 11, .. }));
        },
        other => panic!("expected ElementError, got {:?}", other.map(|_| ())),
    }
}

#[test]
fn requirement_sentinel_body_means_absent_not_error() {
    let outcome = Requirement::lookup_outcome(
        "\"Cannot find the supplied requirement id in the system\"",
        5,
    )
    .unwrap();
    assert!(outcome.is_none());
}

#[test]
fn requirement_by_name_scan() {
    let body = format!(
        "[{},{}]",
        requirement_json("Requirement 1", 5, 1),
        requirement_json("Requirement 2", 6, 2)
    );
    let q = Requirement::by_name_outcome(&body, "Requirement 2", 5).unwrap().unwrap();
    assert_eq!(q.id(), 6);
    assert!(Requirement::by_name_outcome(&body, "Requirement 9", 5).unwrap().is_none());
}

#[test]
fn requirement_round_trip_preserves_fields() {
    let q = Requirement::requirement_from_json(&requirement_json("Requirement 1", 5, 3), 9)
        .unwrap();
    let expected_custom_len = q.custom_properties().as_ref().unwrap().len();
    let encoded = Requirement::requirement_from_json(&requirement_json("Requirement 1", 5, 3), 9)
        .unwrap()
        .encode();
    let again = Requirement::decode(encoded, 9).unwrap();
    assert_eq!(again.id(), q.id());
    assert!(matches!(again.status(), RequirementStatus::InProgress));
    assert_eq!(again.author_id(), q.author_id());
    assert_eq!(again.owner_id(), q.owner_id());
    assert!(matches!(again.importance(), Some(RequirementImportance::High)));
    assert_eq!(again.release_id(), q.release_id());
    assert_eq!(again.component_id(), q.component_id());
    assert_eq!(again.name(), q.name());
    assert_eq!(again.description(), q.description());
    assert_eq!(again.creation_date(), q.creation_date());
    assert_eq!(again.last_updated_date(), q.last_updated_date());
    assert_eq!(again.summary(), q.summary());
    assert_eq!(again.release_version_number(), q.release_version_number());
    assert_eq!(again.project_id(), q.project_id());
    let custom = again.custom_properties().as_ref().unwrap();
    assert_eq!(custom.len(), expected_custom_len);
    assert!(matches!(&custom[0].1, JsonValue::Str(s) if s == "x"));
}

#[test]
fn requirement_bad_date_field_is_a_date_format_error() {
    let body = requirement_json("R", 5, 1).replace(
        "\"CreationDate\":\"/Date(1707863960317-0600)/\"",
        "\"CreationDate\":\"yesterday\"",
    );
    match Requirement::requirement_from_json(&body, 5) {
        Err(SpiraError::DateFormatError { raw_input }) => assert_eq!(raw_input, "yesterday"),
        other => panic!("expected DateFormatError, got {:?}", other.map(|_| ())),
    }
}

#[test]
fn requirement_missing_required_field_names_it() {
    let body = requirement_json("R", 5, 1).replace("\"Summary\":false,", "");
    match Requirement::requirement_from_json(&body, 5) {
        Err(SpiraError::MissingField { field, object_keys }) => {
            assert_eq!(field, "Summary");
            assert!(object_keys.iter().any(|k| k == "Name"));
            assert!(!object_keys.iter().any(|k| k == "Summary"));
        },
        other => panic!("expected MissingField, got {:?}", other.map(|_| ())),
    }
}

#[test]
fn non_object_array_element_is_an_element_error() {
    match Project::projects_from_json("[5]", &client()) {
        Err(SpiraError::ElementError { index, cause }) => {
            assert_eq!(index, 0);
            assert!(matches!(
                *cause,
                SpiraError::MalformedPayload { detail } if detail == "project is not a JSON object"
            ));
        },
        other => panic!("expected ElementError, got {:?}", other.map(|_| ())),
    }
}

#[test]
fn status_codes_are_the_closed_range_one_to_ten() {
    let all = [
        RequirementStatus::Requested,
        RequirementStatus::Planned,
        RequirementStatus::InProgress,
        RequirementStatus::Developed,
        RequirementStatus::Accepted,
        RequirementStatus::Rejected,
        RequirementStatus::Evaluated,
        RequirementStatus::Obsolete,
        RequirementStatus::Tested,
        RequirementStatus::Completed,
    ];
    for (i, s) in all.iter().enumerate() {
        let code = (i + 1) as u64;
        assert_eq!(s.code(), code);
        assert_eq!(RequirementStatus::from_code(code), Some(*s));
    }
    assert_eq!(RequirementStatus::from_code(0), None);
    assert_eq!(RequirementStatus::from_code(11), None);
}

#[test]
fn importance_codes_are_the_closed_range_one_to_four() {
    let all = [
        RequirementImportance::Critical,
        RequirementImportance::High,
        RequirementImportance::Medium,
        RequirementImportance::Low,
    ];
    for (i, v) in all.iter().enumerate() {
        let code = (i + 1) as u64;
        assert_eq!(v.code(), code);
        assert_eq!(RequirementImportance::from_code(code), Some(*v));
    }
    assert_eq!(RequirementImportance::from_code(0), None);
    assert_eq!(RequirementImportance::from_code(5), None);
}

#[test]
fn type_codes_are_the_closed_range_one_to_six() {
    let all = [
        RequirementType::Need,
        RequirementType::Feature,
        RequirementType::UseCase,
        RequirementType::UserStory,
        RequirementType::Quality,
        RequirementType::DesignElement,
    ];
    for (i, v) in all.iter().enumerate() {
        let code = (i + 1) as u64;
        assert_eq!(v.code(), code);
        assert_eq!(RequirementType::from_code(code), Some(*v));
    }
    assert_eq!(RequirementType::from_code(0), None);
    assert_eq!(RequirementType::from_code(7), None);
}

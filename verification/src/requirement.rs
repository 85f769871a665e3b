//! The Requirement entity: the integer-coded enumerations with their closed
//! code ranges, decoding one requirement object, decoding a requirement
//! list, the sentinel-aware by-id outcome, and the by-name scan.
use vstd::prelude::*;

use crate::date::{encode_date, lemma_date_round_trip, lemma_parse_date_wf, Timestamp};
use crate::json::{json_of, parse_json, opt_str, opt_u64, req_bool, req_date, req_str, req_u64,
    spec_lookup, spec_opt_object, spec_opt_str, spec_opt_u64, spec_req_bool, spec_req_date,
    spec_req_str, spec_req_u64, take_opt_object, JsonValue};
use crate::text::str_eq;
use crate::{SpiraError, SpiraErrorV};

verus! {

/// Workflow status of a requirement. The wire codes are the closed,
/// contiguous range 1 to 10, in the order declared here; an unknown code is
/// a decode error, never a default.
#[derive(Clone, Copy, Debug, PartialEq, Eq, Structural)]
pub enum RequirementStatus {
    Requested,
    Planned,
    InProgress,
    Developed,
    Accepted,
    Rejected,
    Evaluated,
    Obsolete,
    Tested,
    Completed,
}

/// The wire code of a status.
pub open spec fn spec_status_code(s: RequirementStatus) -> u64 {
    match s {
        RequirementStatus::Requested => 1,
        RequirementStatus::Planned => 2,
        RequirementStatus::InProgress => 3,
        RequirementStatus::Developed => 4,
        RequirementStatus::Accepted => 5,
        RequirementStatus::Rejected => 6,
        RequirementStatus::Evaluated => 7,
        RequirementStatus::Obsolete => 8,
        RequirementStatus::Tested => 9,
        RequirementStatus::Completed => 10,
    }
}

/// The status a wire code denotes, if it is a known one.
pub open spec fn spec_status_from_code(c: u64) -> Option<RequirementStatus> {
    match c {
        1u64 => Some(RequirementStatus::Requested),
        2u64 => Some(RequirementStatus::Planned),
        3u64 => Some(RequirementStatus::InProgress),
        4u64 => Some(RequirementStatus::Developed),
        5u64 => Some(RequirementStatus::Accepted),
        6u64 => Some(RequirementStatus::Rejected),
        7u64 => Some(RequirementStatus::Evaluated),
        8u64 => Some(RequirementStatus::Obsolete),
        9u64 => Some(RequirementStatus::Tested),
        10u64 => Some(RequirementStatus::Completed),
        _ => None,
    }
}

impl RequirementStatus {
    /// Decode a wire code; codes outside 1 to 10 are unknown.
    pub fn from_code(c: u64) -> (r: Option<RequirementStatus>)
        ensures
            r == spec_status_from_code(c),
            r is Some <==> 1 <= c <= 10,
    {
        match c {
            1 => Some(RequirementStatus::Requested),
            2 => Some(RequirementStatus::Planned),
            3 => Some(RequirementStatus::InProgress),
            4 => Some(RequirementStatus::Developed),
            5 => Some(RequirementStatus::Accepted),
            6 => Some(RequirementStatus::Rejected),
            7 => Some(RequirementStatus::Evaluated),
            8 => Some(RequirementStatus::Obsolete),
            9 => Some(RequirementStatus::Tested),
            10 => Some(RequirementStatus::Completed),
            _ => None,
        }
    }

    /// The wire code of this status.
    pub fn code(&self) -> (r: u64)
        ensures
            r == spec_status_code(*self),
    {
        match self {
            RequirementStatus::Requested => 1,
            RequirementStatus::Planned => 2,
            RequirementStatus::InProgress => 3,
            RequirementStatus::Developed => 4,
            RequirementStatus::Accepted => 5,
            RequirementStatus::Rejected => 6,
            RequirementStatus::Evaluated => 7,
            RequirementStatus::Obsolete => 8,
            RequirementStatus::Tested => 9,
            RequirementStatus::Completed => 10,
        }
    }
}

/// A status code survives the round trip through its code.
pub proof fn lemma_status_code_round_trip(s: RequirementStatus)
    ensures
        spec_status_from_code(spec_status_code(s)) == Some(s),
{
}

/// Kind of a requirement. Wire codes 1 to 6, in the order declared here.
#[derive(Clone, Copy, Debug, PartialEq, Eq, Structural)]
pub enum RequirementType {
    Need,
    Feature,
    UseCase,
    UserStory,
    Quality,
    DesignElement,
}

/// The wire code of a requirement type.
pub open spec fn spec_type_code(t: RequirementType) -> u64 {
    match t {
        RequirementType::Need => 1,
        RequirementType::Feature => 2,
        RequirementType::UseCase => 3,
        RequirementType::UserStory => 4,
        RequirementType::Quality => 5,
        RequirementType::DesignElement => 6,
    }
}

/// The requirement type a wire code denotes, if it is a known one.
pub open spec fn spec_type_from_code(c: u64) -> Option<RequirementType> {
    match c {
        1u64 => Some(RequirementType::Need),
        2u64 => Some(RequirementType::Feature),
        3u64 => Some(RequirementType::UseCase),
        4u64 => Some(RequirementType::UserStory),
        5u64 => Some(RequirementType::Quality),
        6u64 => Some(RequirementType::DesignElement),
        _ => None,
    }
}

impl RequirementType {
    /// Decode a wire code; codes outside 1 to 6 are unknown.
    pub fn from_code(c: u64) -> (r: Option<RequirementType>)
        ensures
            r == spec_type_from_code(c),
            r is Some <==> 1 <= c <= 6,
    {
        match c {
            1 => Some(RequirementType::Need),
            2 => Some(RequirementType::Feature),
            3 => Some(RequirementType::UseCase),
            4 => Some(RequirementType::UserStory),
            5 => Some(RequirementType::Quality),
            6 => Some(RequirementType::DesignElement),
            _ => None,
        }
    }

    /// The wire code of this requirement type.
    pub fn code(&self) -> (r: u64)
        ensures
            r == spec_type_code(*self),
    {
        match self {
            RequirementType::Need => 1,
            RequirementType::Feature => 2,
            RequirementType::UseCase => 3,
            RequirementType::UserStory => 4,
            RequirementType::Quality => 5,
            RequirementType::DesignElement => 6,
        }
    }
}

/// Importance of a requirement. Wire codes 1 to 4, in the order declared
/// here.
#[derive(Clone, Copy, Debug, PartialEq, Eq, Structural)]
pub enum RequirementImportance {
    Critical,
    High,
    Medium,
    Low,
}

/// The wire code of an importance.
pub open spec fn spec_importance_code(i: RequirementImportance) -> u64 {
    match i {
        RequirementImportance::Critical => 1,
        RequirementImportance::High => 2,
        RequirementImportance::Medium => 3,
        RequirementImportance::Low => 4,
    }
}

/// The importance a wire code denotes, if it is a known one.
pub open spec fn spec_importance_from_code(c: u64) -> Option<RequirementImportance> {
    match c {
        1u64 => Some(RequirementImportance::Critical),
        2u64 => Some(RequirementImportance::High),
        3u64 => Some(RequirementImportance::Medium),
        4u64 => Some(RequirementImportance::Low),
        _ => None,
    }
}

impl RequirementImportance {
    /// Decode a wire code; codes outside 1 to 4 are unknown.
    pub fn from_code(c: u64) -> (r: Option<RequirementImportance>)
        ensures
            r == spec_importance_from_code(c),
            r is Some <==> 1 <= c <= 4,
    {
        match c {
            1 => Some(RequirementImportance::Critical),
            2 => Some(RequirementImportance::High),
            3 => Some(RequirementImportance::Medium),
            4 => Some(RequirementImportance::Low),
            _ => None,
        }
    }

    /// The wire code of this importance.
    pub fn code(&self) -> (r: u64)
        ensures
            r == spec_importance_code(*self),
    {
        match self {
            RequirementImportance::Critical => 1,
            RequirementImportance::High => 2,
            RequirementImportance::Medium => 3,
            RequirementImportance::Low => 4,
        }
    }
}

/// An importance code survives the round trip through its code.
pub proof fn lemma_importance_code_round_trip(i: RequirementImportance)
    ensures
        spec_importance_from_code(spec_importance_code(i)) == Some(i),
{
}

/// A requirement resource, as decoded. Immutable once constructed; its
/// `project_id` is set from the project it was fetched under, not read back
/// out of the payload.
#[derive(Debug)]
pub struct Requirement {
    id: u64,
    status: RequirementStatus,
    author_id: u64,
    owner_id: Option<u64>,
    importance: Option<RequirementImportance>,
    release_id: Option<u64>,
    component_id: Option<u64>,
    name: String,
    description: Option<String>,
    creation_date: Timestamp,
    last_updated_date: Timestamp,
    summary: bool,
    release_version_number: Option<String>,
    project_id: u64,
    custom_properties: Option<Vec<(String, JsonValue)>>,
}

/// Mathematical image of a requirement.
pub ghost struct RequirementV {
    pub id: u64,
    pub status: RequirementStatus,
    pub author_id: u64,
    pub owner_id: Option<u64>,
    pub importance: Option<RequirementImportance>,
    pub release_id: Option<u64>,
    pub component_id: Option<u64>,
    pub name: Seq<char>,
    pub description: Option<Seq<char>>,
    pub creation_date: Timestamp,
    pub last_updated_date: Timestamp,
    pub summary: bool,
    pub release_version_number: Option<Seq<char>>,
    pub project_id: u64,
    pub custom_properties: Option<Seq<(String, JsonValue)>>,
}

/// The image of an optional owned text.
pub open spec fn opt_text_view(o: Option<String>) -> Option<Seq<char>> {
    match o {
        Option::Some(s) => Some(s@),
        Option::None => None,
    }
}

/// The image of an optional owned open map.
pub open spec fn opt_map_view(o: Option<Vec<(String, JsonValue)>>) -> Option<
    Seq<(String, JsonValue)>,
> {
    match o {
        Option::Some(m) => Some(m@),
        Option::None => None,
    }
}

impl View for Requirement {
    type V = RequirementV;

    closed spec fn view(&self) -> RequirementV {
        RequirementV {
            id: self.id,
            status: self.status,
            author_id: self.author_id,
            owner_id: self.owner_id,
            importance: self.importance,
            release_id: self.release_id,
            component_id: self.component_id,
            name: self.name@,
            description: opt_text_view(self.description),
            creation_date: self.creation_date,
            last_updated_date: self.last_updated_date,
            summary: self.summary,
            release_version_number: opt_text_view(self.release_version_number),
            project_id: self.project_id,
            custom_properties: opt_map_view(self.custom_properties),
        }
    }
}

/// A present status field must hold a known code; an unknown one is an
/// `UnknownEnumCode`, never a default status.
pub open spec fn spec_req_status(fields: Seq<(String, JsonValue)>) -> Result<
    RequirementStatus,
    SpiraErrorV,
> {
    match spec_req_u64(fields, "StatusId"@) {
        Err(e) => Err(e),
        Ok(c) => match spec_status_from_code(c) {
            Option::Some(s) => Ok(s),
            Option::None => Err(SpiraErrorV::UnknownEnumCode { field: "StatusId"@, value: c }),
        },
    }
}

fn req_status(fields: &Vec<(String, JsonValue)>) -> (r: Result<RequirementStatus, SpiraError>)
    ensures
        match spec_req_status(fields@) {
            Ok(v) => r matches Ok(s) && s == v,
            Err(ev) => r matches Err(e) && e@ == ev,
        },
{
    let c = match req_u64(fields, "StatusId") {
        Ok(c) => c,
        Err(e) => {
            return Err(e);
        },
    };
    match RequirementStatus::from_code(c) {
        Some(s) => Ok(s),
        None => Err(
            SpiraError::UnknownEnumCode { field: String::from_str("StatusId"), value: c },
        ),
    }
}

/// An absent or null importance is "no value"; a present code outside the
/// known range is an `UnknownEnumCode`.
pub open spec fn spec_opt_importance(fields: Seq<(String, JsonValue)>) -> Result<
    Option<RequirementImportance>,
    SpiraErrorV,
> {
    match spec_opt_u64(fields, "ImportanceId"@) {
        Err(e) => Err(e),
        Ok(Option::None) => Ok(Option::None),
        Ok(Option::Some(c)) => match spec_importance_from_code(c) {
            Option::Some(i) => Ok(Option::Some(i)),
            Option::None => Err(
                SpiraErrorV::UnknownEnumCode { field: "ImportanceId"@, value: c },
            ),
        },
    }
}

fn opt_importance(fields: &Vec<(String, JsonValue)>) -> (r: Result<
    Option<RequirementImportance>,
    SpiraError,
>)
    ensures
        match spec_opt_importance(fields@) {
            Ok(v) => r matches Ok(i) && i == v,
            Err(ev) => r matches Err(e) && e@ == ev,
        },
{
    let c = match opt_u64(fields, "ImportanceId") {
        Ok(Some(c)) => c,
        Ok(None) => {
            return Ok(None);
        },
        Err(e) => {
            return Err(e);
        },
    };
    match RequirementImportance::from_code(c) {
        Some(i) => Ok(Some(i)),
        None => Err(
            SpiraError::UnknownEnumCode { field: String::from_str("ImportanceId"), value: c },
        ),
    }
}

/// What one requirement JSON object decodes to under a given project: each
/// field in turn, failing fast with the first field error. The project id
/// comes from the fetch context, not from the payload; the custom-property
/// map, if present, is carried verbatim.
pub open spec fn spec_decode_requirement(j: JsonValue, project_id: u64) -> Result<
    RequirementV,
    SpiraErrorV,
> {
    match j {
        JsonValue::Object(fields) => match spec_req_u64(fields@, "RequirementId"@) {
            Err(e) => Err(e),
            Ok(id) => match spec_req_status(fields@) {
                Err(e) => Err(e),
                Ok(status) => match spec_req_u64(fields@, "AuthorId"@) {
                    Err(e) => Err(e),
                    Ok(author_id) => match spec_opt_u64(fields@, "OwnerId"@) {
                        Err(e) => Err(e),
                        Ok(owner_id) => match spec_opt_importance(fields@) {
                            Err(e) => Err(e),
                            Ok(importance) => match spec_opt_u64(fields@, "ReleaseId"@) {
                                Err(e) => Err(e),
                                Ok(release_id) => match spec_opt_u64(fields@, "ComponentId"@) {
                                    Err(e) => Err(e),
                                    Ok(component_id) => match spec_req_str(fields@, "Name"@) {
                                        Err(e) => Err(e),
                                        Ok(name) => match spec_opt_str(
                                            fields@,
                                            "Description"@,
                                        ) {
                                            Err(e) => Err(e),
                                            Ok(description) => match spec_req_date(
                                                fields@,
                                                "CreationDate"@,
                                            ) {
                                                Err(e) => Err(e),
                                                Ok(creation_date) => match spec_req_date(
                                                    fields@,
                                                    "LastUpdateDate"@,
                                                ) {
                                                    Err(e) => Err(e),
                                                    Ok(last_updated_date) => match spec_req_bool(
                                                        fields@,
                                                        "Summary"@,
                                                    ) {
                                                        Err(e) => Err(e),
                                                        Ok(summary) => match spec_opt_str(
                                                            fields@,
                                                            "ReleaseVersionNumber"@,
                                                        ) {
                                                            Err(e) => Err(e),
                                                            Ok(release_version_number) => Ok(
                                                                RequirementV {
                                                                    id,
                                                                    status,
                                                                    author_id,
                                                                    owner_id,
                                                                    importance,
                                                                    release_id,
                                                                    component_id,
                                                                    name,
                                                                    description,
                                                                    creation_date,
                                                                    last_updated_date,
                                                                    summary,
                                                                    release_version_number,
                                                                    project_id,
                                                                    custom_properties:
                                                                        spec_opt_object(
                                                                        fields@,
                                                                        "CustomProperties"@,
                                                                    ),
                                                                },
                                                            ),
                                                        },
                                                    },
                                                },
                                            },
                                        },
                                    },
                                },
                            },
                        },
                    },
                },
            },
        },
        _ => Err(
            SpiraErrorV::MalformedPayload { detail: "requirement is not a JSON object"@ },
        ),
    }
}

impl Requirement {
    /// Decode one requirement from its JSON object, under the project it was
    /// fetched from. Decoding performs no I/O and builds no partial entity.
    pub fn decode(j: JsonValue, project_id: u64) -> (r: Result<Requirement, SpiraError>)
        ensures
            match spec_decode_requirement(j, project_id) {
                Ok(v) => r matches Ok(q) && q@ == v && q@.creation_date.wf()
                    && q@.last_updated_date.wf(),
                Err(ev) => r matches Err(e) && e@ == ev,
            },
    {
        match j {
            JsonValue::Object(mut fields) => {
                let id = match req_u64(&fields, "RequirementId") {
                    Ok(v) => v,
                    Err(e) => {
                        return Err(e);
                    },
                };
                let status = match req_status(&fields) {
                    Ok(v) => v,
                    Err(e) => {
                        return Err(e);
                    },
                };
                let author_id = match req_u64(&fields, "AuthorId") {
                    Ok(v) => v,
                    Err(e) => {
                        return Err(e);
                    },
                };
                let owner_id = match opt_u64(&fields, "OwnerId") {
                    Ok(v) => v,
                    Err(e) => {
                        return Err(e);
                    },
                };
                let importance = match opt_importance(&fields) {
                    Ok(v) => v,
                    Err(e) => {
                        return Err(e);
                    },
                };
                let release_id = match opt_u64(&fields, "ReleaseId") {
                    Ok(v) => v,
                    Err(e) => {
                        return Err(e);
                    },
                };
                let component_id = match opt_u64(&fields, "ComponentId") {
                    Ok(v) => v,
                    Err(e) => {
                        return Err(e);
                    },
                };
                let name = match req_str(&fields, "Name") {
                    Ok(v) => v,
                    Err(e) => {
                        return Err(e);
                    },
                };
                let description = match opt_str(&fields, "Description") {
                    Ok(v) => v,
                    Err(e) => {
                        return Err(e);
                    },
                };
                let creation_date = match req_date(&fields, "CreationDate") {
                    Ok(v) => v,
                    Err(e) => {
                        return Err(e);
                    },
                };
                let last_updated_date = match req_date(&fields, "LastUpdateDate") {
                    Ok(v) => v,
                    Err(e) => {
                        return Err(e);
                    },
                };
                let summary = match req_bool(&fields, "Summary") {
                    Ok(v) => v,
                    Err(e) => {
                        return Err(e);
                    },
                };
                let release_version_number = match opt_str(&fields, "ReleaseVersionNumber") {
                    Ok(v) => v,
                    Err(e) => {
                        return Err(e);
                    },
                };
                proof {
                    lemma_parse_date_wf(spec_req_str(fields@, "CreationDate"@)->Ok_0);
                    lemma_parse_date_wf(spec_req_str(fields@, "LastUpdateDate"@)->Ok_0);
                }
                let custom_properties = take_opt_object(&mut fields, "CustomProperties");
                Ok(
                    Requirement {
                        id,
                        status,
                        author_id,
                        owner_id,
                        importance,
                        release_id,
                        component_id,
                        name,
                        description,
                        creation_date,
                        last_updated_date,
                        summary,
                        release_version_number,
                        project_id,
                        custom_properties,
                    },
                )
            },
            _ => Err(
                SpiraError::MalformedPayload {
                    detail: String::from_str("requirement is not a JSON object"),
                },
            ),
        }
    }

    /// Re-serialize a requirement to a JSON object, consuming it. Law:
    /// re-serializing preserves every field's semantic value — the result,
    /// decoded under the same project, is exactly the requirement again,
    /// custom properties verbatim.
    pub fn encode(self) -> (r: JsonValue)
        requires
            self@.creation_date.wf(),
            self@.last_updated_date.wf(),
        ensures
            spec_decode_requirement(r, self@.project_id) == Ok::<RequirementV, SpiraErrorV>(
                self@,
            ),
    {
        let Requirement {
            id,
            status,
            author_id,
            owner_id,
            importance,
            release_id,
            component_id,
            name,
            description,
            creation_date,
            last_updated_date,
            summary,
            release_version_number,
            project_id: _,
            custom_properties,
        } = self;
        let mut fields: Vec<(String, JsonValue)> = Vec::new();
        fields.push((String::from_str("RequirementId"), JsonValue::UInt(id)));
        fields.push((String::from_str("StatusId"), JsonValue::UInt(status.code())));
        fields.push((String::from_str("AuthorId"), JsonValue::UInt(author_id)));
        fields.push((String::from_str("OwnerId"), opt_u64_json(owner_id)));
        fields.push((
            String::from_str("ImportanceId"),
            match importance {
                Some(i) => JsonValue::UInt(i.code()),
                None => JsonValue::Null,
            },
        ));
        fields.push((String::from_str("ReleaseId"), opt_u64_json(release_id)));
        fields.push((String::from_str("ComponentId"), opt_u64_json(component_id)));
        fields.push((String::from_str("Name"), JsonValue::Str(name)));
        fields.push((String::from_str("Description"), opt_str_json(description)));
        fields.push((String::from_str("CreationDate"), JsonValue::Str(encode_date(&creation_date))));
        fields.push((
            String::from_str("LastUpdateDate"),
            JsonValue::Str(encode_date(&last_updated_date)),
        ));
        fields.push((String::from_str("Summary"), JsonValue::Bool(summary)));
        fields.push((
            String::from_str("ReleaseVersionNumber"),
            opt_str_json(release_version_number),
        ));
        fields.push((
            String::from_str("CustomProperties"),
            match custom_properties {
                Some(m) => JsonValue::Object(m),
                None => JsonValue::Null,
            },
        ));
        proof {
            reveal_strlit("RequirementId");
            reveal_strlit("StatusId");
            reveal_strlit("AuthorId");
            reveal_strlit("OwnerId");
            reveal_strlit("ImportanceId");
            reveal_strlit("ReleaseId");
            reveal_strlit("ComponentId");
            reveal_strlit("Name");
            reveal_strlit("Description");
            reveal_strlit("CreationDate");
            reveal_strlit("LastUpdateDate");
            reveal_strlit("Summary");
            reveal_strlit("ReleaseVersionNumber");
            reveal_strlit("CustomProperties");
            reveal_with_fuel(crate::json::spec_lookup_from, 16);
            assert("RequirementId"@.len() == 13);
            assert("StatusId"@.len() == 8);
            assert("AuthorId"@.len() == 8);
            assert("OwnerId"@.len() == 7);
            assert("ImportanceId"@.len() == 12);
            assert("ReleaseId"@.len() == 9);
            assert("ComponentId"@.len() == 11);
            assert("Name"@.len() == 4);
            assert("Description"@.len() == 11);
            assert("CreationDate"@.len() == 12);
            assert("LastUpdateDate"@.len() == 14);
            assert("Summary"@.len() == 7);
            assert("ReleaseVersionNumber"@.len() == 20);
            assert("CustomProperties"@.len() == 16);
            assert("StatusId"@[0] == 'S' && "AuthorId"@[0] == 'A');
            assert("OwnerId"@[0] == 'O' && "Summary"@[0] == 'S');
            assert("ComponentId"@[0] == 'C' && "Description"@[0] == 'D');
            assert("ImportanceId"@[0] == 'I' && "CreationDate"@[0] == 'C');
            let fs = fields@;
            assert(fs.len() == 14);
            assert(spec_lookup(fs, "RequirementId"@) == Some(fs[0].1));
            assert(spec_lookup(fs, "StatusId"@) == Some(fs[1].1));
            assert(spec_lookup(fs, "AuthorId"@) == Some(fs[2].1));
            assert(spec_lookup(fs, "OwnerId"@) == Some(fs[3].1));
            assert(spec_lookup(fs, "ImportanceId"@) == Some(fs[4].1));
            assert(spec_lookup(fs, "ReleaseId"@) == Some(fs[5].1));
            assert(spec_lookup(fs, "ComponentId"@) == Some(fs[6].1));
            assert(spec_lookup(fs, "Name"@) == Some(fs[7].1));
            assert(spec_lookup(fs, "Description"@) == Some(fs[8].1));
            assert(spec_lookup(fs, "CreationDate"@) == Some(fs[9].1));
            assert(spec_lookup(fs, "LastUpdateDate"@) == Some(fs[10].1));
            assert(spec_lookup(fs, "Summary"@) == Some(fs[11].1));
            assert(spec_lookup(fs, "ReleaseVersionNumber"@) == Some(fs[12].1));
            assert(spec_lookup(fs, "CustomProperties"@) == Some(fs[13].1));
            lemma_status_code_round_trip(self@.status);
            match self@.importance {
                Option::Some(i) => lemma_importance_code_round_trip(i),
                Option::None => (),
            }
            lemma_date_round_trip(self@.creation_date);
            lemma_date_round_trip(self@.last_updated_date);
            assert(spec_req_u64(fs, "RequirementId"@) == Ok::<u64, SpiraErrorV>(self@.id));
            assert(spec_req_status(fs) == Ok::<RequirementStatus, SpiraErrorV>(self@.status));
            assert(spec_req_u64(fs, "AuthorId"@) == Ok::<u64, SpiraErrorV>(self@.author_id));
            assert(spec_opt_u64(fs, "OwnerId"@) == Ok::<Option<u64>, SpiraErrorV>(
                self@.owner_id,
            ));
            assert(spec_opt_importance(fs) == Ok::<Option<RequirementImportance>, SpiraErrorV>(
                self@.importance,
            ));
            assert(spec_opt_u64(fs, "ReleaseId"@) == Ok::<Option<u64>, SpiraErrorV>(
                self@.release_id,
            ));
            assert(spec_opt_u64(fs, "ComponentId"@) == Ok::<Option<u64>, SpiraErrorV>(
                self@.component_id,
            ));
            assert(spec_req_str(fs, "Name"@) == Ok::<Seq<char>, SpiraErrorV>(self@.name));
            assert(spec_opt_str(fs, "Description"@) == Ok::<Option<Seq<char>>, SpiraErrorV>(
                self@.description,
            ));
            assert(spec_req_date(fs, "CreationDate"@) == Ok::<Timestamp, SpiraErrorV>(
                self@.creation_date,
            ));
            assert(spec_req_date(fs, "LastUpdateDate"@) == Ok::<Timestamp, SpiraErrorV>(
                self@.last_updated_date,
            ));
            assert(spec_req_bool(fs, "Summary"@) == Ok::<bool, SpiraErrorV>(self@.summary));
            assert(spec_opt_str(fs, "ReleaseVersionNumber"@) == Ok::<
                Option<Seq<char>>,
                SpiraErrorV,
            >(self@.release_version_number));
            assert(spec_opt_object(fs, "CustomProperties"@) == self@.custom_properties);
        }
        JsonValue::Object(fields)
    }
}

/// Every element of a decoded requirement array decodes cleanly under the
/// given project.
pub open spec fn spec_requirements_all_ok(els: Seq<JsonValue>, project_id: u64) -> bool {
    forall|i: int|
        0 <= i < els.len() ==> spec_decode_requirement(#[trigger] els[i], project_id) is Ok
}

/// The exact literal JSON string body the service returns, with a
/// success-range transport status, when the supplied requirement id does not
/// exist.
pub open spec fn spec_requirement_not_found_sentinel() -> Seq<char> {
    "\"Cannot find the supplied requirement id in the system\""@
}

/// Is this body the requirement not-found sentinel?
pub fn requirement_not_found(body: &str) -> (r: bool)
    ensures
        r == (body@ == spec_requirement_not_found_sentinel()),
{
    str_eq(body, "\"Cannot find the supplied requirement id in the system\"")
}

impl Requirement {
    /// Decode an array of requirements from raw response text: order is
    /// kept, the output has exactly one entity per input element, and the
    /// first element-level error aborts the decode, with the element's index
    /// attached to the originating error.
    #[verifier::loop_isolation(false)]
    pub fn requirements_from_json(json_string: &str, project_id: u64) -> (r: Result<
        Vec<Requirement>,
        SpiraError,
    >)
        ensures
            match json_of(json_string@) {
                Option::None => r matches Err(e) && e@ == (SpiraErrorV::MalformedPayload {
                    detail: json_string@,
                }),
                Option::Some(j) => match j {
                    JsonValue::Array(els) => {
                        &&& spec_requirements_all_ok(els@, project_id) ==> (r matches Ok(v)
                            && v@.len() == els@.len() && (forall|i: int|
                            0 <= i < els@.len() ==> (#[trigger] v@[i])@
                                == spec_decode_requirement(els@[i], project_id)->Ok_0))
                        &&& !spec_requirements_all_ok(els@, project_id) ==> (r matches Err(e)
                            && exists|i: int|
                            0 <= i < els@.len()
                                && (#[trigger] spec_decode_requirement(els@[i], project_id))
                                is Err && (forall|k: int|
                                0 <= k < i ==> spec_decode_requirement(
                                    #[trigger] els@[k],
                                    project_id,
                                ) is Ok) && e@ == (SpiraErrorV::ElementError {
                                index: i as usize,
                                cause: Box::new(
                                    spec_decode_requirement(els@[i], project_id)->Err_0,
                                ),
                            }))
                    },
                    _ => r matches Err(e) && e@ == (SpiraErrorV::MalformedPayload {
                        detail: "requirements payload is not a JSON array"@,
                    }),
                },
            },
    {
        match parse_json(json_string) {
            None => Err(
                SpiraError::MalformedPayload { detail: String::from_str(json_string) },
            ),
            Some(JsonValue::Array(mut els)) => {
                let ghost orig = els@;
                let total = els.len();
                let mut out: Vec<Requirement> = Vec::new();
                let mut i: usize = 0;
                while els.len() > 0
                    invariant
                        0 <= i <= total,
                        total == orig.len(),
                        i + els@.len() == orig.len(),
                        els@ == orig.skip(i as int),
                        out@.len() == i,
                        forall|k: int|
                            0 <= k < i ==> spec_decode_requirement(
                                #[trigger] orig[k],
                                project_id,
                            ) is Ok,
                        forall|k: int|
                            0 <= k < i ==> (#[trigger] out@[k])@ == spec_decode_requirement(
                                orig[k],
                                project_id,
                            )->Ok_0,
                    decreases els@.len(),
                {
                    let el = els.remove(0);
                    proof {
                        assert(el == orig[i as int]);
                        assert(els@ =~= orig.skip(i + 1));
                    }
                    match Requirement::decode(el, project_id) {
                        Ok(q) => {
                            out.push(q);
                        },
                        Err(cause) => {
                            let e = SpiraError::ElementError { index: i, cause: Box::new(cause) };
                            return Err(e);
                        },
                    }
                    i = i + 1;
                }
                proof {
                    assert(orig.skip(i as int).len() == 0);
                }
                Ok(out)
            },
            Some(_) => Err(
                SpiraError::MalformedPayload {
                    detail: String::from_str("requirements payload is not a JSON array"),
                },
            ),
        }
    }

    /// Decode one requirement from raw response text.
    pub fn requirement_from_json(json_string: &str, project_id: u64) -> (r: Result<
        Requirement,
        SpiraError,
    >)
        ensures
            match json_of(json_string@) {
                Option::None => r matches Err(e) && e@ == (SpiraErrorV::MalformedPayload {
                    detail: json_string@,
                }),
                Option::Some(j) => match spec_decode_requirement(j, project_id) {
                    Ok(v) => r matches Ok(q) && q@ == v && q@.creation_date.wf()
                        && q@.last_updated_date.wf(),
                    Err(ev) => r matches Err(e) && e@ == ev,
                },
            },
    {
        match parse_json(json_string) {
            None => Err(
                SpiraError::MalformedPayload { detail: String::from_str(json_string) },
            ),
            Some(j) => Requirement::decode(j, project_id),
        }
    }

    /// The outcome of a by-id lookup: a body exactly equal to the service's
    /// not-found sentinel means the requirement is absent — a successful
    /// empty outcome, not an error — while any other body is decoded, and a
    /// decode failure there is a genuine error.
    pub fn lookup_outcome(body: &str, project_id: u64) -> (r: Result<
        Option<Requirement>,
        SpiraError,
    >)
        ensures
            body@ == spec_requirement_not_found_sentinel() ==> (r matches Ok(o) && o is None),
            body@ != spec_requirement_not_found_sentinel() ==> match json_of(body@) {
                Option::None => r matches Err(e) && e@ == (SpiraErrorV::MalformedPayload {
                    detail: body@,
                }),
                Option::Some(j) => match spec_decode_requirement(j, project_id) {
                    Ok(v) => r matches Ok(o) && o matches Some(q) && q@ == v,
                    Err(ev) => r matches Err(e) && e@ == ev,
                },
            },
    {
        if requirement_not_found(body) {
            return Ok(None);
        }
        match Requirement::requirement_from_json(body, project_id) {
            Ok(q) => Ok(Some(q)),
            Err(e) => Err(e),
        }
    }

    /// The outcome of a by-name lookup over one full List response: a
    /// client-side linear scan, first match in service order wins, no match
    /// is the absent outcome. Duplicate names are not detected.
    #[verifier::loop_isolation(false)]
    pub fn by_name_outcome(body: &str, requirement_name: &str, project_id: u64) -> (r: Result<
        Option<Requirement>,
        SpiraError,
    >)
        ensures
            match json_of(body@) {
                Option::None => r matches Err(e) && e@ == (SpiraErrorV::MalformedPayload {
                    detail: body@,
                }),
                Option::Some(j) => match j {
                    JsonValue::Array(els) => {
                        &&& !spec_requirements_all_ok(els@, project_id) ==> (r matches Err(e)
                            && exists|i: int|
                            0 <= i < els@.len()
                                && (#[trigger] spec_decode_requirement(els@[i], project_id))
                                is Err && (forall|k: int|
                                0 <= k < i ==> spec_decode_requirement(
                                    #[trigger] els@[k],
                                    project_id,
                                ) is Ok) && e@ == (SpiraErrorV::ElementError {
                                index: i as usize,
                                cause: Box::new(
                                    spec_decode_requirement(els@[i], project_id)->Err_0,
                                ),
                            }))
                        &&& spec_requirements_all_ok(els@, project_id) ==> {
                        &&& (exists|i: int|
                            0 <= i < els@.len()
                                && (#[trigger] spec_decode_requirement(
                                els@[i],
                                project_id,
                            ))->Ok_0.name == requirement_name@) ==> (r matches Ok(o)
                            && o matches Some(q) && exists|i: int|
                            {
                                &&& 0 <= i < els@.len()
                                &&& (#[trigger] spec_decode_requirement(
                                    els@[i],
                                    project_id,
                                ))->Ok_0.name == requirement_name@
                                &&& forall|k: int|
                                    0 <= k < i ==> (#[trigger] spec_decode_requirement(
                                        els@[k],
                                        project_id,
                                    ))->Ok_0.name != requirement_name@
                                &&& q@ == spec_decode_requirement(els@[i], project_id)->Ok_0
                            })
                        &&& (forall|i: int|
                            0 <= i < els@.len()
                                ==> (#[trigger] spec_decode_requirement(
                                els@[i],
                                project_id,
                            ))->Ok_0.name != requirement_name@) ==> (r matches Ok(o)
                            && o is None)
                        }
                    },
                    _ => true,
                },
            },
    {
        let mut requirements = match Requirement::requirements_from_json(body, project_id) {
            Ok(v) => v,
            Err(e) => {
                return Err(e);
            },
        };
        let ghost decoded = requirements@;
        let n = requirements.len();
        let mut i: usize = 0;
        while i < n
            invariant
                0 <= i <= n,
                n == requirements@.len(),
                requirements@ == decoded,
                forall|k: int|
                    0 <= k < i ==> (#[trigger] requirements@[k])@.name != requirement_name@,
            decreases n - i,
        {
            if str_eq(requirements[i].name().as_str(), requirement_name) {
                let q = requirements.remove(i);
                proof {
                    match json_of(body@) {
                        Option::Some(JsonValue::Array(els)) => {
                            assert(spec_requirements_all_ok(els@, project_id));
                            assert(decoded.len() == els@.len());
                            assert((i as int) < els@.len());
                            assert(decoded[i as int]@ == spec_decode_requirement(
                                els@[i as int],
                                project_id,
                            )->Ok_0);
                            assert forall|k: int| 0 <= k < i implies (
                            #[trigger] spec_decode_requirement(els@[k], project_id))->Ok_0.name
                                != requirement_name@ by {
                                assert(decoded[k]@ == spec_decode_requirement(
                                    els@[k],
                                    project_id,
                                )->Ok_0);
                            }
                        },
                        _ => {},
                    }
                }
                return Ok(Some(q));
            }
            i = i + 1;
        }
        proof {
            match json_of(body@) {
                Option::Some(JsonValue::Array(els)) => {
                    assert forall|k: int| 0 <= k < els@.len() implies (
                    #[trigger] spec_decode_requirement(els@[k], project_id))->Ok_0.name
                        != requirement_name@ by {
                        assert(decoded[k]@ == spec_decode_requirement(
                            els@[k],
                            project_id,
                        )->Ok_0);
                    }
                },
                _ => {},
            }
        }
        Ok(None)
    }

    /// Identity assigned by the service.
    pub fn id(&self) -> (r: u64)
        ensures
            r == self@.id,
    {
        self.id
    }

    /// Workflow status.
    pub fn status(&self) -> (r: RequirementStatus)
        ensures
            r == self@.status,
    {
        self.status
    }

    /// Who authored the requirement.
    pub fn author_id(&self) -> (r: u64)
        ensures
            r == self@.author_id,
    {
        self.author_id
    }

    /// Current owner, when the workflow has assigned one.
    pub fn owner_id(&self) -> (r: Option<u64>)
        ensures
            r == self@.owner_id,
    {
        self.owner_id
    }

    /// Importance, when the field is set.
    pub fn importance(&self) -> (r: Option<RequirementImportance>)
        ensures
            r == self@.importance,
    {
        self.importance
    }

    /// The release the requirement is scheduled for, if any.
    pub fn release_id(&self) -> (r: Option<u64>)
        ensures
            r == self@.release_id,
    {
        self.release_id
    }

    /// The component the requirement is a part of, if any.
    pub fn component_id(&self) -> (r: Option<u64>)
        ensures
            r == self@.component_id,
    {
        self.component_id
    }

    /// The requirement's name.
    pub fn name(&self) -> (r: &String)
        ensures
            r@ == self@.name,
    {
        &self.name
    }

    /// Free-form description, when present.
    pub fn description(&self) -> (r: &Option<String>)
        ensures
            opt_text_view(*r) == self@.description,
    {
        &self.description
    }

    /// When the requirement was created.
    pub fn creation_date(&self) -> (r: Timestamp)
        ensures
            r == self@.creation_date,
    {
        self.creation_date
    }

    /// When the requirement was last updated.
    pub fn last_updated_date(&self) -> (r: Timestamp)
        ensures
            r == self@.last_updated_date,
    {
        self.last_updated_date
    }

    /// Whether this is a grouping requirement with no leaf content.
    pub fn summary(&self) -> (r: bool)
        ensures
            r == self@.summary,
    {
        self.summary
    }

    /// The version number text of the scheduled release, if any.
    pub fn release_version_number(&self) -> (r: &Option<String>)
        ensures
            opt_text_view(*r) == self@.release_version_number,
    {
        &self.release_version_number
    }

    /// The project this requirement was fetched under.
    pub fn project_id(&self) -> (r: u64)
        ensures
            r == self@.project_id,
    {
        self.project_id
    }

    /// Deployment-specific custom fields, untyped, exactly as received.
    pub fn custom_properties(&self) -> (r: &Option<Vec<(String, JsonValue)>>)
        ensures
            opt_map_view(*r) == self@.custom_properties,
    {
        &self.custom_properties
    }
}

/// A JSON value for an optional integer: the integer, or JSON-null.
fn opt_u64_json(o: Option<u64>) -> (r: JsonValue)
    ensures
        r == match o {
            Option::Some(v) => JsonValue::UInt(v),
            Option::None => JsonValue::Null,
        },
{
    match o {
        Some(v) => JsonValue::UInt(v),
        None => JsonValue::Null,
    }
}

/// A JSON value for an optional text: the text, or JSON-null.
fn opt_str_json(o: Option<String>) -> (r: JsonValue)
    ensures
        r == match o {
            Option::Some(s) => JsonValue::Str(s),
            Option::None => JsonValue::Null,
        },
{
    match o {
        Some(s) => JsonValue::Str(s),
        None => JsonValue::Null,
    }
}

} // verus!

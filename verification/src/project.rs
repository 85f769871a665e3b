//! The Project entity: decoding one project object, decoding a whole project
//! list, the sentinel-aware by-id outcome, and the by-name scan. A decoded
//! project is an immutable value carrying the client handle it was fetched
//! through.
use vstd::prelude::*;

use std::sync::Arc;

use crate::client::{SpiraClient, SpiraClientV};
use crate::date::{encode_date, lemma_date_round_trip, lemma_parse_date_wf, Timestamp};
use crate::json::{json_of, parse_json, req_date, req_str, req_u64, spec_lookup, spec_req_date,
    spec_req_str, spec_req_u64, JsonValue};
use crate::text::str_eq;
use crate::{SpiraError, SpiraErrorV};

verus! {

/// A project resource, as decoded: stable identity, name, free-form
/// description, and the canonical creation timestamp. Immutable once
/// constructed; refreshing means re-fetching.
#[derive(Clone, Debug)]
pub struct Project {
    client: Arc<SpiraClient>,
    id: u64,
    name: String,
    description: String,
    creation_date: Timestamp,
}

/// Mathematical image of a project.
pub ghost struct ProjectV {
    pub client: SpiraClientV,
    pub id: u64,
    pub name: Seq<char>,
    pub description: Seq<char>,
    pub creation_date: Timestamp,
}

/// The payload-borne fields of a project, before a client handle is
/// attached.
pub ghost struct ProjectFields {
    pub id: u64,
    pub name: Seq<char>,
    pub description: Seq<char>,
    pub creation_date: Timestamp,
}

/// The image of a project assembled from its payload fields and the handle
/// it was fetched through.
pub open spec fn project_view(f: ProjectFields, c: SpiraClientV) -> ProjectV {
    ProjectV {
        client: c,
        id: f.id,
        name: f.name,
        description: f.description,
        creation_date: f.creation_date,
    }
}

impl View for Project {
    type V = ProjectV;

    closed spec fn view(&self) -> ProjectV {
        ProjectV {
            client: self.client@,
            id: self.id,
            name: self.name@,
            description: self.description@,
            creation_date: self.creation_date,
        }
    }
}

/// What one project JSON object decodes to: each required field in turn,
/// failing fast with the first field error, assembling no partial entity.
pub open spec fn spec_decode_project(j: JsonValue) -> Result<ProjectFields, SpiraErrorV> {
    match j {
        JsonValue::Object(fields) => match spec_req_u64(fields@, "ProjectId"@) {
            Err(e) => Err(e),
            Ok(id) => match spec_req_str(fields@, "Name"@) {
                Err(e) => Err(e),
                Ok(name) => match spec_req_str(fields@, "Description"@) {
                    Err(e) => Err(e),
                    Ok(description) => match spec_req_date(fields@, "CreationDate"@) {
                        Err(e) => Err(e),
                        Ok(creation_date) => Ok(
                            ProjectFields { id, name, description, creation_date },
                        ),
                    },
                },
            },
        },
        _ => Err(SpiraErrorV::MalformedPayload { detail: "project is not a JSON object"@ }),
    }
}

/// Every element of a decoded project array decodes cleanly.
pub open spec fn spec_projects_all_ok(els: Seq<JsonValue>) -> bool {
    forall|i: int| 0 <= i < els.len() ==> spec_decode_project(#[trigger] els[i]) is Ok
}

/// The exact literal JSON string body the service returns, with a
/// success-range transport status, when the supplied project id does not
/// exist.
pub open spec fn spec_project_not_found_sentinel() -> Seq<char> {
    "\"Cannot find the supplied project id in the system\""@
}

/// Is this body the project not-found sentinel?
pub fn project_not_found(body: &str) -> (r: bool)
    ensures
        r == (body@ == spec_project_not_found_sentinel()),
{
    str_eq(body, "\"Cannot find the supplied project id in the system\"")
}

impl Project {
    /// Decode one project from its JSON object, threading in the client
    /// handle the entity will use for its own later calls. Decoding performs
    /// no I/O.
    pub fn decode(j: &JsonValue, client: &Arc<SpiraClient>) -> (r: Result<Project, SpiraError>)
        ensures
            match spec_decode_project(*j) {
                Ok(f) => r matches Ok(p) && p@ == project_view(f, client@)
                    && p@.creation_date.wf(),
                Err(ev) => r matches Err(e) && e@ == ev,
            },
    {
        match j {
            JsonValue::Object(fields) => {
                let id = match req_u64(fields, "ProjectId") {
                    Ok(v) => v,
                    Err(e) => {
                        return Err(e);
                    },
                };
                let name = match req_str(fields, "Name") {
                    Ok(v) => v,
                    Err(e) => {
                        return Err(e);
                    },
                };
                let description = match req_str(fields, "Description") {
                    Ok(v) => v,
                    Err(e) => {
                        return Err(e);
                    },
                };
                let creation_date = match req_date(fields, "CreationDate") {
                    Ok(v) => v,
                    Err(e) => {
                        return Err(e);
                    },
                };
                proof {
                    lemma_parse_date_wf(spec_req_str(fields@, "CreationDate"@)->Ok_0);
                }
                Ok(Project { client: client.clone(), id, name, description, creation_date })
            },
            _ => Err(
                SpiraError::MalformedPayload {
                    detail: String::from_str("project is not a JSON object"),
                },
            ),
        }
    }

    /// Re-serialize a project to a JSON object. Law: re-serializing preserves
    /// every payload field's semantic value — the result decodes back to
    /// exactly the fields this project holds.
    pub fn encode(&self) -> (r: JsonValue)
        requires
            self@.creation_date.wf(),
        ensures
            spec_decode_project(r) == Ok::<ProjectFields, SpiraErrorV>(
                ProjectFields {
                    id: self@.id,
                    name: self@.name,
                    description: self@.description,
                    creation_date: self@.creation_date,
                },
            ),
    {
        let mut fields: Vec<(String, JsonValue)> = Vec::new();
        fields.push((String::from_str("ProjectId"), JsonValue::UInt(self.id)));
        fields.push((String::from_str("Name"), JsonValue::Str(self.name.clone())));
        fields.push(
            (String::from_str("Description"), JsonValue::Str(self.description.clone())),
        );
        fields.push(
            (String::from_str("CreationDate"), JsonValue::Str(encode_date(&self.creation_date))),
        );
        proof {
            reveal_strlit("ProjectId");
            reveal_strlit("Name");
            reveal_strlit("Description");
            reveal_strlit("CreationDate");
            reveal_with_fuel(crate::json::spec_lookup_from, 8);
            assert("ProjectId"@.len() == 9);
            assert("Name"@.len() == 4);
            assert("Description"@.len() == 11);
            assert("CreationDate"@.len() == 12);
            let fs = fields@;
            assert(fs.len() == 4);
            assert(fs[0].0@ == "ProjectId"@);
            assert(fs[1].0@ == "Name"@);
            assert(fs[2].0@ == "Description"@);
            assert(fs[3].0@ == "CreationDate"@);
            lemma_date_round_trip(self@.creation_date);
            assert(spec_lookup(fs, "ProjectId"@) == Some(fs[0].1));
            assert(spec_lookup(fs, "Name"@) == Some(fs[1].1));
            assert(spec_lookup(fs, "Description"@) == Some(fs[2].1));
            assert(spec_lookup(fs, "CreationDate"@) == Some(fs[3].1));
        }
        JsonValue::Object(fields)
    }

    /// Decode one project from raw response text.
    pub fn project_from_json(json_string: &str, client: &Arc<SpiraClient>) -> (r: Result<
        Project,
        SpiraError,
    >)
        ensures
            match json_of(json_string@) {
                Option::None => r matches Err(e) && e@ == (SpiraErrorV::MalformedPayload {
                    detail: json_string@,
                }),
                Option::Some(j) => match spec_decode_project(j) {
                    Ok(f) => r matches Ok(p) && p@ == project_view(f, client@)
                        && p@.creation_date.wf(),
                    Err(ev) => r matches Err(e) && e@ == ev,
                },
            },
    {
        match parse_json(json_string) {
            None => Err(
                SpiraError::MalformedPayload { detail: String::from_str(json_string) },
            ),
            Some(j) => Project::decode(&j, client),
        }
    }

    /// Decode an array of projects from raw response text: order is kept,
    /// the output has exactly one entity per input element, and the first
    /// element-level error aborts the decode, with the element's index
    /// attached to the originating error.
    #[verifier::loop_isolation(false)]
    pub fn projects_from_json(json_string: &str, client: &Arc<SpiraClient>) -> (r: Result<
        Vec<Project>,
        SpiraError,
    >)
        ensures
            match json_of(json_string@) {
                Option::None => r matches Err(e) && e@ == (SpiraErrorV::MalformedPayload {
                    detail: json_string@,
                }),
                Option::Some(j) => match j {
                    JsonValue::Array(els) => {
                        &&& spec_projects_all_ok(els@) ==> (r matches Ok(v) && v@.len()
                            == els@.len() && (forall|i: int|
                            0 <= i < els@.len() ==> (#[trigger] v@[i])@ == project_view(
                                spec_decode_project(els@[i])->Ok_0,
                                client@,
                            )))
                        &&& !spec_projects_all_ok(els@) ==> (r matches Err(e) && exists|i: int|
                            0 <= i < els@.len()
                                && (#[trigger] spec_decode_project(els@[i])) is Err && (
                            forall|k: int|
                                0 <= k < i ==> spec_decode_project(#[trigger] els@[k]) is Ok)
                                && e@ == (SpiraErrorV::ElementError {
                                index: i as usize,
                                cause: Box::new(spec_decode_project(els@[i])->Err_0),
                            }))
                    },
                    _ => r matches Err(e) && e@ == (SpiraErrorV::MalformedPayload {
                        detail: "projects payload is not a JSON array"@,
                    }),
                },
            },
    {
        match parse_json(json_string) {
            None => Err(
                SpiraError::MalformedPayload { detail: String::from_str(json_string) },
            ),
            Some(JsonValue::Array(els)) => {
                let n = els.len();
                let mut out: Vec<Project> = Vec::new();
                let mut i: usize = 0;
                while i < n
                    invariant
                        0 <= i <= n,
                        n == els@.len(),
                        out@.len() == i,
                        forall|k: int|
                            0 <= k < i ==> spec_decode_project(#[trigger] els@[k]) is Ok,
                        forall|k: int|
                            0 <= k < i ==> (#[trigger] out@[k])@ == project_view(
                                spec_decode_project(els@[k])->Ok_0,
                                client@,
                            ),
                    decreases n - i,
                {
                    match Project::decode(&els[i], client) {
                        Ok(p) => {
                            out.push(p);
                        },
                        Err(cause) => {
                            let e = SpiraError::ElementError { index: i, cause: Box::new(cause) };
                            proof {
                                assert(spec_decode_project(els@[i as int]) is Err);
                            }
                            return Err(e);
                        },
                    }
                    i = i + 1;
                }
                Ok(out)
            },
            Some(_) => Err(
                SpiraError::MalformedPayload {
                    detail: String::from_str("projects payload is not a JSON array"),
                },
            ),
        }
    }

    /// The outcome of a by-id lookup: a body exactly equal to the service's
    /// not-found sentinel means the project is absent — a successful empty
    /// outcome, not an error — while any other body is decoded, and a decode
    /// failure there is a genuine error.
    pub fn lookup_outcome(body: &str, client: &Arc<SpiraClient>) -> (r: Result<
        Option<Project>,
        SpiraError,
    >)
        ensures
            body@ == spec_project_not_found_sentinel() ==> (r matches Ok(o) && o is None),
            body@ != spec_project_not_found_sentinel() ==> match json_of(body@) {
                Option::None => r matches Err(e) && e@ == (SpiraErrorV::MalformedPayload {
                    detail: body@,
                }),
                Option::Some(j) => match spec_decode_project(j) {
                    Ok(f) => r matches Ok(o) && o matches Some(p) && p@ == project_view(
                        f,
                        client@,
                    ),
                    Err(ev) => r matches Err(e) && e@ == ev,
                },
            },
    {
        if project_not_found(body) {
            return Ok(None);
        }
        match Project::project_from_json(body, client) {
            Ok(p) => Ok(Some(p)),
            Err(e) => Err(e),
        }
    }

    /// The outcome of a by-name lookup over one full List response: the
    /// service offers no server-side name filter, so this is a client-side
    /// linear scan, first match in service order wins, and no match at all is
    /// the absent outcome. Duplicate names are not detected.
    #[verifier::loop_isolation(false)]
    pub fn by_name_outcome(body: &str, project_name: &str, client: &Arc<SpiraClient>) -> (r:
        Result<Option<Project>, SpiraError>)
        ensures
            match json_of(body@) {
                Option::None => r matches Err(e) && e@ == (SpiraErrorV::MalformedPayload {
                    detail: body@,
                }),
                Option::Some(j) => match j {
                    JsonValue::Array(els) => {
                        &&& !spec_projects_all_ok(els@) ==> (r matches Err(e) && exists|i: int|
                            0 <= i < els@.len()
                                && (#[trigger] spec_decode_project(els@[i])) is Err && (
                            forall|k: int|
                                0 <= k < i ==> spec_decode_project(#[trigger] els@[k]) is Ok)
                                && e@ == (SpiraErrorV::ElementError {
                                index: i as usize,
                                cause: Box::new(spec_decode_project(els@[i])->Err_0),
                            }))
                        &&& spec_projects_all_ok(els@) ==> {
                        &&& (exists|i: int|
                            0 <= i < els@.len()
                                && (#[trigger] spec_decode_project(els@[i]))->Ok_0.name
                                == project_name@) ==> (r matches Ok(o) && o matches Some(p)
                            && exists|i: int|
                            {
                                &&& 0 <= i < els@.len()
                                &&& (#[trigger] spec_decode_project(els@[i]))->Ok_0.name
                                    == project_name@
                                &&& forall|k: int|
                                    0 <= k < i ==> (#[trigger] spec_decode_project(
                                        els@[k],
                                    ))->Ok_0.name != project_name@
                                &&& p@ == project_view(
                                    spec_decode_project(els@[i])->Ok_0,
                                    client@,
                                )
                            })
                        &&& (forall|i: int|
                            0 <= i < els@.len()
                                ==> (#[trigger] spec_decode_project(els@[i]))->Ok_0.name
                                != project_name@) ==> (r matches Ok(o) && o is None)
                        }
                    },
                    _ => true,
                },
            },
    {
        let mut projects = match Project::projects_from_json(body, client) {
            Ok(v) => v,
            Err(e) => {
                return Err(e);
            },
        };
        let ghost decoded = projects@;
        let n = projects.len();
        let mut i: usize = 0;
        while i < n
            invariant
                0 <= i <= n,
                n == projects@.len(),
                projects@ == decoded,
                forall|k: int| 0 <= k < i ==> (#[trigger] projects@[k])@.name != project_name@,
            decreases n - i,
        {
            if str_eq(projects[i].name().as_str(), project_name) {
                let p = projects.remove(i);
                proof {
                    match json_of(body@) {
                        Option::Some(JsonValue::Array(els)) => {
                            assert(spec_projects_all_ok(els@));
                            assert(decoded.len() == els@.len());
                            assert((i as int) < els@.len());
                            assert(decoded[i as int]@ == project_view(
                                spec_decode_project(els@[i as int])->Ok_0,
                                client@,
                            ));
                            assert(spec_decode_project(els@[i as int])->Ok_0.name
                                == project_name@);
                            assert forall|k: int| 0 <= k < i implies (
                            #[trigger] spec_decode_project(els@[k]))->Ok_0.name
                                != project_name@ by {
                                assert(decoded[k]@ == project_view(
                                    spec_decode_project(els@[k])->Ok_0,
                                    client@,
                                ));
                            }
                        },
                        _ => {},
                    }
                }
                return Ok(Some(p));
            }
            i = i + 1;
        }
        proof {
            match json_of(body@) {
                Option::Some(JsonValue::Array(els)) => {
                    assert forall|k: int| 0 <= k < els@.len() implies (
                    #[trigger] spec_decode_project(els@[k]))->Ok_0.name != project_name@ by {
                        assert(decoded[k]@ == project_view(
                            spec_decode_project(els@[k])->Ok_0,
                            client@,
                        ));
                    }
                },
                _ => {},
            }
        }
        Ok(None)
    }

    /// Identity assigned by the service.
    pub fn id(&self) -> (r: u64)
        ensures
            r == self@.id,
    {
        self.id
    }

    /// The project's name.
    pub fn name(&self) -> (r: &String)
        ensures
            r@ == self@.name,
    {
        &self.name
    }

    /// The project's description; may be empty or HTML-bearing.
    pub fn description(&self) -> (r: &String)
        ensures
            r@ == self@.description,
    {
        &self.description
    }

    /// When the project was created.
    pub fn creation_date(&self) -> (r: Timestamp)
        ensures
            r == self@.creation_date,
    {
        self.creation_date
    }

    /// The handle to the client this project was fetched through.
    pub fn client(&self) -> (r: &Arc<SpiraClient>)
        ensures
            r@ == self@.client,
    {
        &self.client
    }
}

} // verus!

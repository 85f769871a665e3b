//! The client handle and the fetch-orchestration decisions. The handle is a
//! value: base URL, credentials and service version. The functions here
//! decide *what* to request — paths, the count-then-page two-step, and when
//! no request is needed at all — while the caller performs the transport I/O
//! and hands response bodies back to the decoders.
use vstd::prelude::*;

use std::sync::Arc;

use crate::text::{all_digits, dec_of, digits_val, u64_to_string, parse_u64};
use crate::{spec_version_supported, SpiraError, SpiraErrorV, SupportSpiraVersions};

verus! {

/// Shared handle carried by every entity so it can issue further calls
/// scoped to itself. Read-only after construction.
#[derive(Clone, Debug)]
pub struct SpiraClient {
    base_url: String,
    username: String,
    api_key: String,
    version: SupportSpiraVersions,
}

/// Mathematical image of a client handle.
pub ghost struct SpiraClientV {
    pub base_url: Seq<char>,
    pub username: Seq<char>,
    pub api_key: Seq<char>,
    pub version: SupportSpiraVersions,
}

impl View for SpiraClient {
    type V = SpiraClientV;

    closed spec fn view(&self) -> SpiraClientV {
        SpiraClientV {
            base_url: self.base_url@,
            username: self.username@,
            api_key: self.api_key@,
            version: self.version,
        }
    }
}

impl SpiraClient {
    /// A client is well formed exactly when its version is one the layer
    /// implements; `new` refuses to construct any other.
    pub open spec fn wf(self) -> bool {
        spec_version_supported(self@.version)
    }

    /// Construct a client handle. Asking for a service version this layer
    /// does not implement fails construction, loudly, rather than failing
    /// later inside some request path.
    pub fn new(base_url: &str, version: SupportSpiraVersions, username: &str, api_key: &str)
        -> (r: Result<Arc<SpiraClient>, SpiraError>)
        ensures
            spec_version_supported(version) <==> r is Ok,
            r matches Ok(c) ==> c.wf() && c@ == (SpiraClientV {
                base_url: base_url@,
                username: username@,
                api_key: api_key@,
                version: version,
            }),
            r matches Err(e) ==> e@ == (SpiraErrorV::UnsupportedVersion { version }),
    {
        match version {
            SupportSpiraVersions::V5_0 => Ok(
                Arc::new(
                    SpiraClient {
                        base_url: String::from_str(base_url),
                        username: String::from_str(username),
                        api_key: String::from_str(api_key),
                        version,
                    },
                ),
            ),
            _ => Err(SpiraError::UnsupportedVersion { version }),
        }
    }

    /// The URL segment for the client's service version; versions the layer
    /// does not implement are refused, never silently mapped elsewhere.
    pub fn url_version(&self) -> (r: Result<&'static str, SpiraError>)
        ensures
            match r {
                Ok(s) => spec_version_supported(self@.version) && s@ == "v5_0"@,
                Err(e) => !spec_version_supported(self@.version)
                    && e@ == (SpiraErrorV::UnsupportedVersion { version: self@.version }),
            },
    {
        match self.version {
            SupportSpiraVersions::V5_0 => Ok("v5_0"),
            v => Err(SpiraError::UnsupportedVersion { version: v }),
        }
    }

    /// The full URL for one resource path:
    /// `{base_url}/Services/{version}/RestService.svc/{path}`.
    pub fn request_url(&self, resource_path: &str) -> (r: Result<String, SpiraError>)
        ensures
            match r {
                Ok(u) => spec_version_supported(self@.version) && u@ == self@.base_url
                    + "/Services/"@ + "v5_0"@ + "/RestService.svc/"@ + resource_path@,
                Err(e) => !spec_version_supported(self@.version)
                    && e@ == (SpiraErrorV::UnsupportedVersion { version: self@.version }),
            },
    {
        let segment = match self.url_version() {
            Ok(s) => s,
            Err(e) => {
                return Err(e);
            },
        };
        let mut url = self.base_url.clone();
        url.append("/Services/");
        url.append(segment);
        url.append("/RestService.svc/");
        url.append(resource_path);
        Ok(url)
    }

    /// The base URL this client was built with.
    pub fn base_url(&self) -> (r: &String)
        ensures
            r@ == self@.base_url,
    {
        &self.base_url
    }

    /// The user name attached to every request.
    pub fn username(&self) -> (r: &String)
        ensures
            r@ == self@.username,
    {
        &self.username
    }

    /// The API key attached to every request.
    pub fn api_key(&self) -> (r: &String)
        ensures
            r@ == self@.api_key,
    {
        &self.api_key
    }

    /// The service version this client was built for.
    pub fn version(&self) -> (r: SupportSpiraVersions)
        ensures
            r == self@.version,
    {
        self.version
    }
}

/// Path of the project list resource.
pub open spec fn spec_projects_path() -> Seq<char> {
    "projects"@
}

pub fn projects_path() -> (r: String)
    ensures
        r@ == spec_projects_path(),
{
    String::from_str("projects")
}

/// Path of one project resource.
pub open spec fn spec_project_path(project_id: u64) -> Seq<char> {
    "projects/"@ + dec_of(project_id as nat)
}

pub fn project_path(project_id: u64) -> (r: String)
    ensures
        r@ == spec_project_path(project_id),
{
    let mut s = String::from_str("projects/");
    let id = u64_to_string(project_id);
    s.append(id.as_str());
    s
}

/// Path of the requirement count resource of one project.
pub open spec fn spec_requirements_count_path(project_id: u64) -> Seq<char> {
    "projects/"@ + dec_of(project_id as nat) + "/requirements/count"@
}

pub fn requirements_count_path(project_id: u64) -> (r: String)
    ensures
        r@ == spec_requirements_count_path(project_id),
{
    let mut s = project_path(project_id);
    s.append("/requirements/count");
    s
}

/// Path of one requirement resource of one project.
pub open spec fn spec_requirement_path(project_id: u64, requirement_id: u64) -> Seq<char> {
    "projects/"@ + dec_of(project_id as nat) + "/requirements/"@ + dec_of(requirement_id as nat)
}

pub fn requirement_path(project_id: u64, requirement_id: u64) -> (r: String)
    ensures
        r@ == spec_requirement_path(project_id, requirement_id),
{
    let mut s = project_path(project_id);
    s.append("/requirements/");
    let id = u64_to_string(requirement_id);
    s.append(id.as_str());
    s
}

/// Path of the requirement list request: the starting row is always the
/// one-based `1` — the service returns nothing for a starting row of `0` —
/// and the row count is exactly the count the service reported.
pub open spec fn spec_requirements_list_path(project_id: u64, count: u64) -> Seq<char> {
    "projects/"@ + dec_of(project_id as nat)
        + "/requirements?starting_row=1&number_of_rows="@ + dec_of(count as nat)
}

pub fn requirements_list_path(project_id: u64, count: u64) -> (r: String)
    ensures
        r@ == spec_requirements_list_path(project_id, count),
{
    let mut s = project_path(project_id);
    s.append("/requirements?starting_row=1&number_of_rows=");
    let c = u64_to_string(count);
    s.append(c.as_str());
    s
}

/// What a requirement count response body means: the digits of a `u64`, and
/// nothing else.
pub open spec fn spec_parse_count(s: Seq<char>) -> Option<u64> {
    if s.len() > 0 && all_digits(s) && digits_val(s) <= u64::MAX {
        Some(digits_val(s) as u64)
    } else {
        None
    }
}

/// Decode the body of a `requirements/count` response.
pub fn parse_requirements_count(body: &str) -> (r: Result<u64, SpiraError>)
    ensures
        match r {
            Ok(c) => spec_parse_count(body@) == Some(c),
            Err(e) => spec_parse_count(body@) is None && e@ == (SpiraErrorV::MalformedPayload {
                detail: body@,
            }),
        },
{
    match parse_u64(body) {
        Some(c) => Ok(c),
        None => Err(SpiraError::MalformedPayload { detail: String::from_str(body) }),
    }
}

/// The step that follows a count response in the count-then-page protocol.
#[derive(Debug)]
pub enum ListStep {
    /// The count was zero: the listing is complete — empty — and no list
    /// request is to be issued at all.
    NoRequest,
    /// The count was positive: issue exactly one list request for this path.
    Fetch(String),
}

/// Decide what follows the count response for a project's requirements: a
/// malformed count is an error, a count of zero ends the protocol with no
/// further request, and a positive count asks for exactly one list request
/// covering rows `1..count`.
pub fn requirements_list_step(project_id: u64, count_body: &str) -> (r: Result<
    ListStep,
    SpiraError,
>)
    ensures
        match spec_parse_count(count_body@) {
            Option::None => r matches Err(e) && e@ == (SpiraErrorV::MalformedPayload {
                detail: count_body@,
            }),
            Option::Some(c) => if c == 0 {
                r matches Ok(s) && s is NoRequest
            } else {
                r matches Ok(s) && s matches ListStep::Fetch(p)
                    && p@ == spec_requirements_list_path(project_id, c)
            },
        },
{
    let count = match parse_requirements_count(count_body) {
        Ok(c) => c,
        Err(e) => {
            return Err(e);
        },
    };
    if count == 0 {
        Ok(ListStep::NoRequest)
    } else {
        Ok(ListStep::Fetch(requirements_list_path(project_id, count)))
    }
}

} // verus!

//! Command line values of the GitLab tool: merge request references, the
//! output format and the GitLab API address.

use std::str::FromStr;

use vstd::prelude::*;

use crate::decimal::{decimal_text, lemma_decimal_round_trip, parse_u64_decimal, parse_u64_spec, u64_to_decimal};
use crate::text::{chars_of, find_char, first_index_of, lemma_first_index_at, lemma_first_index_of, text_equals};

verus! {

/// Why a merge request reference was refused.
#[derive(Debug, Clone, Copy, PartialEq, Eq, Structural)]
pub enum MrReferenceError {
    /// The reference holds no `!`.
    MissingSeparator,
    /// What follows the first `!` is not a merge request number.
    InvalidId,
}

impl MrReferenceError {
    /// The message shown for this error.
    pub fn message(&self) -> (r: &'static str)
        ensures
            *self == MrReferenceError::MissingSeparator ==> r@ == "Expected a merge request id of the form `project/id!123`, missing `!`"@,
            *self == MrReferenceError::InvalidId ==> r@ == "Expected a merge request id of the form `project/id!123`, the `!` must be followed by an integer"@,
    {
        match self {
            MrReferenceError::MissingSeparator => "Expected a merge request id of the form `project/id!123`, missing `!`",
            MrReferenceError::InvalidId => "Expected a merge request id of the form `project/id!123`, the `!` must be followed by an integer",
        }
    }
}

/// What reading `reference` as `<project>!<merge request number>` gives: the
/// text before the first `!` and the number after it.
pub open spec fn parse_mr_reference_spec(reference: Seq<char>) -> Result<(Seq<char>, u64), MrReferenceError> {
    match first_index_of(reference, '!') {
        None => Err(MrReferenceError::MissingSeparator),
        Some(k) => match parse_u64_spec(reference.skip(k + 1)) {
            None => Err(MrReferenceError::InvalidId),
            Some(id) => Ok((reference.take(k), id)),
        },
    }
}

/// Reads `reference` as `<project>!<merge request number>`, splitting at the first `!`.
pub fn parse_mr_reference(reference: &str) -> (r: Result<(String, u64), MrReferenceError>)
    ensures
        r matches Ok((project, id)) ==> parse_mr_reference_spec(reference@) == Ok::<
            (Seq<char>, u64),
            MrReferenceError,
        >((project@, id)),
        r matches Err(e) ==> parse_mr_reference_spec(reference@) == Err::<(Seq<char>, u64), MrReferenceError>(e),
{
    let chars = chars_of(reference);
    let n = chars.len();
    match find_char(&chars, '!') {
        None => Err(MrReferenceError::MissingSeparator),
        Some(k) => {
            proof {
                lemma_first_index_of(chars@, '!');
            }
            let rest = reference.substring_char(k + 1, n);
            assert(rest@ =~= reference@.skip(k + 1));
            match parse_u64_decimal(rest) {
                None => Err(MrReferenceError::InvalidId),
                Some(id) => {
                    let project = reference.substring_char(0, k).to_owned();
                    assert(project@ =~= reference@.take(k as int));
                    Ok((project, id))
                },
            }
        },
    }
}

/// A reference to a merge request of a project, such as
/// `opentalk/backend/services/roomserver!680`.
#[derive(Debug, Clone)]
pub struct GitLabMrReference {
    project: String,
    merge_request_id: u64,
}

impl View for GitLabMrReference {
    type V = (Seq<char>, u64);

    closed spec fn view(&self) -> (Seq<char>, u64) {
        (self.project@, self.merge_request_id)
    }
}

/// The text of a merge request reference: `<project>!<number>`.
pub open spec fn mr_reference_text(r: (Seq<char>, u64)) -> Seq<char> {
    r.0 + "!"@ + decimal_text(r.1 as nat)
}

impl GitLabMrReference {
    /// The reference to merge request `merge_request_id` of `project`.
    pub fn new(project: String, merge_request_id: u64) -> (r: Self)
        ensures
            r@ == (project@, merge_request_id),
    {
        GitLabMrReference { project, merge_request_id }
    }

    /// Reads a reference of the form `<project>!<number>`.
    pub fn parse(reference: &str) -> (r: Result<Self, MrReferenceError>)
        ensures
            r matches Ok(m) ==> parse_mr_reference_spec(reference@) == Ok::<(Seq<char>, u64), MrReferenceError>(
                m@,
            ),
            r matches Err(e) ==> parse_mr_reference_spec(reference@) == Err::<(Seq<char>, u64), MrReferenceError>(e),
    {
        match parse_mr_reference(reference) {
            Ok((project, id)) => Ok(GitLabMrReference::new(project, id)),
            Err(e) => Err(e),
        }
    }

    /// The project path of the merge request.
    pub fn project(&self) -> (r: &str)
        ensures
            r@ == self@.0,
    {
        self.project.as_str()
    }

    /// The number (iid) of the merge request within its project.
    pub fn merge_request_id(&self) -> (r: u64)
        ensures
            r == self@.1,
    {
        self.merge_request_id
    }

    /// The reference as text: `<project>!<number>`.
    pub fn to_text(&self) -> (r: String)
        ensures
            r@ == mr_reference_text(self@),
    {
        let mut s = self.project.clone();
        s.append("!");
        let id = u64_to_decimal(self.merge_request_id);
        s.append(id.as_str());
        s
    }
}

/// The text of a reference reads back as that reference, where the project
/// path holds no `!`.
pub proof fn lemma_mr_reference_round_trip(r: (Seq<char>, u64))
    requires
        forall|j: int| 0 <= j < r.0.len() ==> r.0[j] != '!',
    ensures
        parse_mr_reference_spec(mr_reference_text(r)) == Ok::<(Seq<char>, u64), MrReferenceError>(r),
{
    reveal_strlit("!");
    let t = mr_reference_text(r);
    let k = r.0.len() as int;
    assert(t[k] == '!');
    assert forall|j: int| 0 <= j < k implies t[j] != '!' by {
        assert(t[j] == r.0[j]);
    }
    lemma_first_index_at(t, '!', k);
    assert(t.skip(k + 1) =~= decimal_text(r.1 as nat));
    assert(t.take(k) =~= r.0);
    lemma_decimal_round_trip(r.1);
}

/// The formats in which results are printed.
#[derive(Debug, Clone, Copy, PartialEq, Eq, Structural)]
pub enum OutputFormat {
    Json,
}

impl Default for OutputFormat {
    fn default() -> (r: Self)
        ensures
            r == OutputFormat::Json,
    {
        OutputFormat::Json
    }
}

/// Why a GitLab API address was refused.
#[derive(Debug, Clone, Copy, PartialEq, Eq, Structural)]
pub enum ApiUrlError {
    /// The URL has a path other than `/` (none given) or `/api/v4`.
    PathNotAllowed,
    /// The URL has no domain name (for instance an IP address).
    NoDomain,
}

impl ApiUrlError {
    /// The message shown for this error.
    pub fn message(&self) -> (r: &'static str)
        ensures
            *self == ApiUrlError::PathNotAllowed ==> r@ == "Only the domain is allowed, the path is automatically set to `/api/v4`"@,
            *self == ApiUrlError::NoDomain ==> r@ == "Invalid gitlab url"@,
    {
        match self {
            ApiUrlError::PathNotAllowed => "Only the domain is allowed, the path is automatically set to `/api/v4`",
            ApiUrlError::NoDomain => "Invalid gitlab url",
        }
    }
}

/// The parts of a parsed URL that the API address check reads.
pub struct UrlParts {
    pub path: String,
    pub domain: Option<String>,
}

/// Whether the url crate parses `text` as an absolute URL.
pub uninterp spec fn url_parses(text: Seq<char>) -> bool;

/// The path of the URL that the url crate parses from `text`.
pub uninterp spec fn url_path(text: Seq<char>) -> Seq<char>;

/// The domain of the URL that the url crate parses from `text`, if its host is a domain.
pub uninterp spec fn url_domain(text: Seq<char>) -> Option<Seq<char>>;

/// The view of an optional text.
pub open spec fn opt_text(o: Option<String>) -> Option<Seq<char>> {
    match o {
        Some(s) => Some(s@),
        None => None,
    }
}

/// Parses `text` with url::Url::from_str and reads the path (Url::path) and
/// the domain (Url::domain) of the result. The contract claims only that these
/// are functions of `text`; what the url crate accepts and computes is named,
/// not stated.
#[verifier::external_body]
fn url_parts(text: &str) -> (r: Option<UrlParts>)
    ensures
        r is Some <==> url_parses(text@),
        r matches Some(p) ==> p.path@ == url_path(text@) && opt_text(p.domain) == url_domain(text@),
{
    match url::Url::from_str(text) {
        Ok(u) => Some(UrlParts { path: u.path().to_string(), domain: u.domain().map(String::from) }),
        Err(_) => None,
    }
}

/// The GitLab host that an `--api-url` value names: text that is not an
/// absolute URL is taken as the host itself; a URL must have no path (the
/// url crate gives it `/`) or the path `/api/v4`, and a domain, which is the host.
pub open spec fn gitlab_host_spec(
    text: Seq<char>,
    parsed: bool,
    path: Seq<char>,
    domain: Option<Seq<char>>,
) -> Result<Seq<char>, ApiUrlError> {
    if !parsed {
        Ok(text)
    } else if path != "/"@ && path != "/api/v4"@ {
        Err(ApiUrlError::PathNotAllowed)
    } else {
        match domain {
            Some(d) => Ok(d),
            None => Err(ApiUrlError::NoDomain),
        }
    }
}

/// The view of a text result.
pub open spec fn text_result<E>(r: Result<String, E>) -> Result<Seq<char>, E> {
    match r {
        Ok(s) => Ok(s@),
        Err(e) => Err(e),
    }
}

/// Decides the GitLab host from `text` and what the URL parser made of it.
pub fn gitlab_host_from_parts(text: &str, parts: Option<UrlParts>) -> (r: Result<String, ApiUrlError>)
    ensures
        text_result(r) == match parts {
            None => gitlab_host_spec(text@, false, Seq::empty(), None),
            Some(p) => gitlab_host_spec(text@, true, p.path@, opt_text(p.domain)),
        },
{
    match parts {
        None => Ok(text.to_owned()),
        Some(p) => {
            if !text_equals(p.path.as_str(), "/") && !text_equals(p.path.as_str(), "/api/v4") {
                Err(ApiUrlError::PathNotAllowed)
            } else {
                match p.domain {
                    Some(d) => Ok(d),
                    None => Err(ApiUrlError::NoDomain),
                }
            }
        },
    }
}

/// The GitLab host named by an `--api-url` value.
pub fn parse_url(text: &str) -> (r: Result<String, ApiUrlError>)
    ensures
        text_result(r) == gitlab_host_spec(text@, url_parses(text@), url_path(text@), url_domain(text@)),
{
    let parts = url_parts(text);
    gitlab_host_from_parts(text, parts)
}

} // verus!

//! GitLab projects and the authorized clone URL of a project.

use std::str::FromStr;

use vstd::prelude::*;

use crate::args::url_parses;

verus! {

/// A GitLab project.
#[derive(Debug, Clone)]
pub struct Project {
    pub id: u64,
    pub description: Option<String>,
    pub description_html: Option<String>,
    pub default_branch: String,
    pub ssh_url_to_repo: String,
    pub http_url_to_repo: String,
    pub name: String,
    pub name_with_namespace: String,
    pub path: String,
    pub path_with_namespace: String,
}

/// Why no authorized clone URL could be made.
#[derive(Debug, Clone, PartialEq, Eq)]
pub enum CloneUrlError {
    /// The clone URL of the project is not a URL; holds the url crate's message.
    InvalidUrl(String),
    /// The URL cannot carry a user name (no host, an empty host, or a `file:` URL).
    UsernameRejected,
    /// The URL cannot carry a password.
    PasswordRejected,
}

impl CloneUrlError {
    /// The message shown for this error.
    pub fn message(&self) -> (r: &str)
        ensures
            *self matches CloneUrlError::InvalidUrl(m) ==> r@ == m@,
            *self is UsernameRejected ==> r@ == "Failed to set URL username"@,
            *self is PasswordRejected ==> r@ == "Failed to set URL password"@,
    {
        match self {
            CloneUrlError::InvalidUrl(m) => m.as_str(),
            CloneUrlError::UsernameRejected => "Failed to set URL username",
            CloneUrlError::PasswordRejected => "Failed to set URL password",
        }
    }
}

/// An authorized clone URL, or why none could be made.
pub type CloneUrlResult = Result<String, CloneUrlError>;

/// The message (Display of url::ParseError) of the error that the url crate
/// reports for `text` where it does not parse it.
pub uninterp spec fn url_parse_error_text(text: Seq<char>) -> Seq<char>;

/// The text (Url::as_str) of the URL that the url crate parses from `text`.
pub uninterp spec fn url_serialization(text: Seq<char>) -> Seq<char>;

/// Whether the URL that the url crate parses from `text` can carry user
/// information (Url::set_username succeeds on it).
pub uninterp spec fn url_accepts_userinfo(text: Seq<char>) -> bool;

/// The text of the URL parsed from `text` after Url::set_username(username)
/// and Url::set_password(Some(password)).
pub uninterp spec fn url_with_userinfo(text: Seq<char>, username: Seq<char>, password: Seq<char>) -> Seq<char>;

/// `r` is the error for a text that is not a URL, with the message `message`.
pub open spec fn is_invalid_url_error(r: CloneUrlResult, message: Seq<char>) -> bool {
    match r {
        Err(CloneUrlError::InvalidUrl(m)) => m@ == message,
        _ => false,
    }
}

/// Lengths for which the url crate's 32-bit offsets cannot overflow while it
/// adds user information to the URL parsed from `text`: the URL's text takes
/// at most four bytes per character, and each character of the user name and
/// password at most twelve bytes once percent-encoded.
pub open spec fn userinfo_fits(text: Seq<char>, username: Seq<char>, password: Seq<char>) -> bool {
    url_parses(text) ==> 4 * url_serialization(text).len() + 12 * (username.len() + password.len()) + 16
        <= u32::MAX
}

/// Parses `text` with url::Url::from_str and returns the URL's text
/// (Url::as_str); what it accepts and the text are named, not stated.
#[verifier::external_body]
fn url_serialized(text: &str) -> (r: Option<String>)
    ensures
        r is Some <==> url_parses(text@),
        r matches Some(s) ==> s@ == url_serialization(text@),
{
    match url::Url::from_str(text) {
        Ok(url) => Some(url.as_str().to_string()),
        Err(_) => None,
    }
}

/// Whether the lengths of the URL parsed from `text`, of `username` and of
/// `password` fit (see `userinfo_fits`).
pub fn userinfo_fits_lengths(text: &str, username: &str, password: &str) -> (r: bool)
    ensures
        r == userinfo_fits(text@, username@, password@),
        !url_parses(text@) ==> r,
        url_parses(text@) ==> (r <==> 4 * url_serialization(text@).len() + 12 * (username@.len()
            + password@.len()) + 16 <= 0xffff_ffff),
{
    match url_serialized(text) {
        None => true,
        Some(s) => {
            let a = s.as_str().unicode_len() as u64;
            let b = username.unicode_len() as u64;
            let c = password.unicode_len() as u64;
            if a > 0x1_0000_0000 || b > 0x1_0000_0000 || c > 0x1_0000_0000 {
                return false;
            }
            4 * a + 12 * (b + c) + 16 <= 0xffff_ffff
        },
    }
}

/// The length guard refuses only lengths near the limit of 32-bit offsets: a
/// URL whose text and user information are each shorter than 2^20 characters
/// always fits, and so does any text that is not a URL.
pub proof fn lemma_ordinary_lengths_fit(text: Seq<char>, username: Seq<char>, password: Seq<char>)
    requires
        !url_parses(text) || url_serialization(text).len() < 0x10_0000,
        username.len() + password.len() < 0x10_0000,
    ensures
        userinfo_fits(text, username, password),
{
}

/// Parses `text` with url::Url::from_str, then calls Url::set_username and
/// Url::set_password(Some(..)) and returns the URL's text. The contract claims:
/// a parse error gives `InvalidUrl` with the error's message; set_username
/// fails exactly where the parsed URL cannot carry user information (which is
/// named, not stated); set_password checks the same condition on host and
/// scheme, which set_username does not change, so it does not fail after
/// set_username succeeded; the resulting text is named. The bound in
/// `requires` keeps the setters' 32-bit offsets from overflowing.
#[verifier::external_body]
fn url_with_credentials(text: &str, username: &str, password: &str) -> (r: CloneUrlResult)
    requires
        userinfo_fits(text@, username@, password@),
    ensures
        !url_parses(text@) ==> is_invalid_url_error(r, url_parse_error_text(text@)),
        url_parses(text@) && !url_accepts_userinfo(text@) ==> r == CloneUrlResult::Err(CloneUrlError::UsernameRejected),
        url_parses(text@) && url_accepts_userinfo(text@) ==> r is Ok,
        r matches Ok(s) ==> s@ == url_with_userinfo(text@, username@, password@),
{
    let mut url = match url::Url::from_str(text) {
        Ok(url) => url,
        Err(e) => return Err(CloneUrlError::InvalidUrl(e.to_string())),
    };
    if url.set_username(username).is_err() {
        return Err(CloneUrlError::UsernameRejected);
    }
    if url.set_password(Some(password)).is_err() {
        return Err(CloneUrlError::PasswordRejected);
    }
    Ok(url.into())
}

/// What making the authorized clone URL of `text` with `password` gives.
pub open spec fn clone_url_outcome(text: Seq<char>, password: Seq<char>, r: CloneUrlResult) -> bool {
    &&& !url_parses(text) ==> is_invalid_url_error(r, url_parse_error_text(text))
    &&& url_parses(text) && !url_accepts_userinfo(text) ==> r == CloneUrlResult::Err(
        CloneUrlError::UsernameRejected,
    )
    &&& url_parses(text) && url_accepts_userinfo(text) ==> r is Ok
    &&& r matches Ok(s) ==> s@ == url_with_userinfo(text, "oauth2"@, password)
}

/// The clone URL of a project with the user `oauth2` and the access token as
/// password, so that git can clone with it.
pub fn authorized_clone_url(http_url_to_repo: &str, token: &str) -> (r: CloneUrlResult)
    requires
        userinfo_fits(http_url_to_repo@, "oauth2"@, token@),
    ensures
        clone_url_outcome(http_url_to_repo@, token@, r),
{
    url_with_credentials(http_url_to_repo, "oauth2", token)
}

/// The authorized clone URL where the lengths fit the url crate's 32-bit
/// offsets; `None` where they do not.
pub fn authorized_clone_url_checked(http_url_to_repo: &str, token: &str) -> (r: Option<CloneUrlResult>)
    ensures
        r is None <==> !userinfo_fits(http_url_to_repo@, "oauth2"@, token@),
        r is None <==> (url_parses(http_url_to_repo@) && 4 * url_serialization(http_url_to_repo@).len() + 12 * (6
            + token@.len()) + 16 > 0xffff_ffff),
        r matches Some(x) ==> clone_url_outcome(http_url_to_repo@, token@, x),
{
    proof {
        reveal_strlit("oauth2");
    }
    if userinfo_fits_lengths(http_url_to_repo, "oauth2", token) {
        Some(authorized_clone_url(http_url_to_repo, token))
    } else {
        None
    }
}

} // verus!

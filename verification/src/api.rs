//! The three requests of the panel's client API.
//!
//! Every request is a GET that carries the API key as a bearer token and
//! asks for JSON. The functions here only describe the requests; sending
//! them is the driver's part.

use vstd::prelude::*;
use vstd::string::*;

verus! {

/// The panel that the client talks to.
pub const PANEL_URL: &'static str = "https://panel.atbphosting.com";

/// The name under which the client introduces itself.
pub const USER_AGENT: &'static str = "ClumsyLoader/0.1";

/// One GET request: where it goes and its two headers.
#[derive(Debug, PartialEq, Eq)]
pub struct ApiRequest {
    /// The full URL.
    pub url: String,
    /// The value of the `Authorization` header.
    pub authorization: String,
    /// The value of the `Accept` header.
    pub accept: String,
}

/// Mathematical value of an [`ApiRequest`].
pub struct ApiRequestView {
    pub url: Seq<char>,
    pub authorization: Seq<char>,
    pub accept: Seq<char>,
}

impl View for ApiRequest {
    type V = ApiRequestView;

    open spec fn view(&self) -> ApiRequestView {
        ApiRequestView { url: self.url@, authorization: self.authorization@, accept: self.accept@ }
    }
}

/// Whether a character is white space as Unicode defines it (the derived
/// core property `White_Space`, which `char::is_whitespace` reports).
pub uninterp spec fn is_white_space(c: char) -> bool;

/// `text` without the white space at its start.
pub open spec fn without_leading(text: Seq<char>) -> Seq<char>
    decreases text.len(),
{
    if text.len() > 0 && is_white_space(text.first()) {
        without_leading(text.drop_first())
    } else {
        text
    }
}

/// `text` without the white space at its end.
pub open spec fn without_trailing(text: Seq<char>) -> Seq<char>
    decreases text.len(),
{
    if text.len() > 0 && is_white_space(text.last()) {
        without_trailing(text.drop_last())
    } else {
        text
    }
}

/// `text` without the white space at its two ends.
pub open spec fn trimmed(text: Seq<char>) -> Seq<char> {
    without_trailing(without_leading(text))
}

/// `str::trim` of the standard library. The contract repeats its
/// documentation: the result is the text with leading and trailing white
/// space removed, white space being Unicode's `White_Space`; so where
/// anything is left, it neither starts nor ends with white space.
#[verifier::external_body]
fn trim(text: &str) -> (inner: &str)
    ensures
        inner@ == trimmed(text@),
        inner@.len() > 0 ==> !is_white_space(inner@.first()) && !is_white_space(inner@.last()),
{
    text.trim()
}

/// The API key in a line of input: the line without the white space
/// around it, the line break included.
pub fn key_of_line(line: &str) -> (key: String)
    ensures
        key@ == trimmed(line@),
{
    trim(line).to_owned()
}

/// The path that lists the servers of the account.
pub open spec fn servers_path() -> Seq<char> {
    "/api/client"@
}

/// The path that lists the backups of a server, named by its uuid.
pub open spec fn backups_path(server_uuid: Seq<char>) -> Seq<char> {
    "/api/client/servers/"@ + server_uuid + "/backups"@
}

/// The path that gives the download link of a backup; the server is
/// named by its short identifier.
pub open spec fn download_link_path(server_identifier: Seq<char>, backup_uuid: Seq<char>) -> Seq<
    char,
> {
    "/api/client/servers/"@ + server_identifier + "/backups/"@ + backup_uuid + "/download"@
}

/// The request for `path` on the panel at `base` with the key `api_key`.
pub open spec fn request_for(base: Seq<char>, api_key: Seq<char>, path: Seq<char>) -> ApiRequestView {
    ApiRequestView {
        url: base + path,
        authorization: "Bearer "@ + api_key,
        accept: "application/json"@,
    }
}

fn authorized(url: String, api_key: &str) -> (request: ApiRequest)
    ensures
        request@ == (ApiRequestView {
            url: url@,
            authorization: "Bearer "@ + api_key@,
            accept: "application/json"@,
        }),
{
    ApiRequest {
        url,
        authorization: String::from_str("Bearer ").concat(api_key),
        accept: String::from_str("application/json"),
    }
}

/// The request that lists the servers of the account.
pub fn servers_request(base: &str, api_key: &str) -> (request: ApiRequest)
    ensures
        request@ == request_for(base@, api_key@, servers_path()),
{
    let url = String::from_str(base).concat("/api/client");
    authorized(url, api_key)
}

/// The request that lists the backups of the server `server_uuid`.
pub fn backups_request(base: &str, api_key: &str, server_uuid: &str) -> (request: ApiRequest)
    ensures
        request@ == request_for(base@, api_key@, backups_path(server_uuid@)),
{
    let mut url = String::from_str(base);
    url.append("/api/client/servers/");
    url.append(server_uuid);
    url.append("/backups");
    proof {
        let path = backups_path(server_uuid@);
        assert(url@ =~= base@ + path);
    }
    authorized(url, api_key)
}

/// The request that gives the download link of the backup `backup_uuid`
/// of the server `server_identifier`.
pub fn download_link_request(
    base: &str,
    api_key: &str,
    server_identifier: &str,
    backup_uuid: &str,
) -> (request: ApiRequest)
    ensures
        request@ == request_for(
            base@,
            api_key@,
            download_link_path(server_identifier@, backup_uuid@),
        ),
{
    let mut url = String::from_str(base);
    url.append("/api/client/servers/");
    url.append(server_identifier);
    url.append("/backups/");
    url.append(backup_uuid);
    url.append("/download");
    proof {
        let path = download_link_path(server_identifier@, backup_uuid@);
        assert(url@ =~= base@ + path);
    }
    authorized(url, api_key)
}

} // verus!

use crate::config::{push_str, Cfg};
use subsonic_types::common::{Format, Version};
use subsonic_types::request::retrieval::Download;
use subsonic_types::request::{Authentication, Request, SubsonicRequest};
use vstd::prelude::*;

verus! {

/// The client name sent with every request.
pub const CLIENT_NAME: &'static str = "SunDae";

/// Albums asked for per page when listing the library.
pub const ALBUM_PAGE: u32 = 500;

/// The query string of an authenticated download request for `id`.
pub uninterp spec fn download_query_of(
    username: Seq<char>,
    salt: Seq<char>,
    token: Seq<char>,
    client: Seq<char>,
    id: Seq<char>,
) -> Seq<char>;

/// Relies on subsonic_types' `SubsonicRequest::to_query` for a `Request`
/// with token authentication, the latest API version, JSON format and a
/// `Download` body: the result depends on these strings alone.
#[verifier::external_body]
fn download_query(username: &str, salt: &str, token: &str, client: &str, id: &str) -> (r: String)
    ensures
        r@ == download_query_of(username@, salt@, token@, client@, id@),
{
    let request = Request {
        username: username.to_string(),
        authentication: Authentication::Token { token: token.to_string(), salt: salt.to_string() },
        version: Version::LATEST,
        client: client.to_string(),
        format: Some(Format::Json.to_string()),
        body: Download { id: id.to_string() },
    };
    request.to_query()
}

/// Relies on subsonic_types' `PATH` of `Download`, which its derive sets to
/// `/rest/` followed by the endpoint name `download`.
#[verifier::external_body]
fn download_path() -> (r: String)
    ensures
        r@ == "/rest/download"@,
{
    Download::PATH.to_string()
}

/// The URL of a request: the server, the endpoint's path, `?` and the query.
pub fn request_url(server: &str, path: &str, query: &str) -> (r: String)
    ensures
        r@ == server@ + path@ + "?"@ + query@,
{
    let mut url = server.to_owned();
    push_str(&mut url, path);
    push_str(&mut url, "?");
    push_str(&mut url, query);
    url
}

/// The URL from which the track `id` is downloaded, authenticated with
/// `cfg`'s user name, salt and token.
pub fn download_url(cfg: &Cfg, id: &str) -> (r: String)
    ensures
        r@ == cfg.config.server@ + "/rest/download"@ + "?"@ + download_query_of(
            cfg.config.username@,
            cfg.salt@,
            cfg.token@,
            CLIENT_NAME@,
            id@,
        ),
{
    let query = download_query(
        cfg.config.username.as_str(),
        cfg.salt.as_str(),
        cfg.token.as_str(),
        CLIENT_NAME,
        id,
    );
    let path = download_path();
    request_url(cfg.config.server.as_str(), path.as_str(), query.as_str())
}

/// The offset of the next page of the album listing after a page asked
/// for at `offset` returned `received` albums: none once a page comes
/// back short, or when the offset would pass `u32::MAX`.
pub fn next_album_offset(offset: u32, received: usize) -> (r: Option<u32>)
    ensures
        r == (if received >= ALBUM_PAGE && offset + ALBUM_PAGE <= u32::MAX {
            Some((offset + ALBUM_PAGE) as u32)
        } else {
            None::<u32>
        }),
{
    if received >= ALBUM_PAGE as usize && offset <= u32::MAX - ALBUM_PAGE {
        Some(offset + ALBUM_PAGE)
    } else {
        None
    }
}

} // verus!

//! Decisions of the web server itself: which port it listens on, and how the
//! Config Backup script proxy answers from its ten-minute cache and the
//! upstream fetch.

use vstd::prelude::*;
use crate::text::{parse_u16, parsed_u16};

verus! {

/// The port the dashboard listens on unless `TETRON_WEBUI_PORT` says otherwise.
pub const DEFAULT_PORT: u16 = 7870;

/// The port to listen on, from the value of `TETRON_WEBUI_PORT`
/// (`env_value`): that number where it parses as a port, else the default.
pub fn resolve_port(env_value: Option<String>) -> (r: u16)
    ensures
        r == (match env_value {
            Some(v) => match parsed_u16(v@) {
                Some(p) => p,
                None => DEFAULT_PORT,
            },
            None => DEFAULT_PORT,
        }),
{
    match env_value {
        Some(v) => match parse_u16(v.as_str()) {
            Some(p) => p,
            None => DEFAULT_PORT,
        },
        None => DEFAULT_PORT,
    }
}

/// How long a fetched backup script is served before it is fetched again.
pub const BACKUP_CACHE_TTL_SECS: u64 = 600;

/// An HTTP answer of the script proxy: its status, its `Content-Type` and
/// `Cache-Control` headers, and its body.
#[derive(Debug)]
pub struct BackupReply {
    pub status: u16,
    pub content_type: &'static str,
    pub cache_control: &'static str,
    pub body: String,
}

/// The last script fetched, and how long ago.
#[derive(Debug)]
pub struct CachedScript {
    pub age_millis: u64,
    pub body: String,
}

/// What the proxy does after a fetch: the answer, and the body to keep as
/// the new cache (where the fetch succeeded).
#[derive(Debug)]
pub struct BackupOutcome {
    pub reply: BackupReply,
    pub store: Option<String>,
}

/// The answer serving a script body.
pub fn serve_backup_ok(body: String) -> (r: BackupReply)
    ensures
        r.status == 200,
        r.content_type@ == "text/x-shellscript"@,
        r.cache_control@ == "no-cache"@,
        r.body@ == body@,
{
    BackupReply { status: 200, content_type: "text/x-shellscript", cache_control: "no-cache", body }
}

/// Whether the cached script is still fresh enough to serve without fetching.
pub fn backup_cache_hit(cached: &Option<CachedScript>) -> (r: bool)
    ensures
        r == (cached matches Some(c) && c.age_millis < BACKUP_CACHE_TTL_SECS * 1000),
{
    match cached {
        Some(c) => c.age_millis < BACKUP_CACHE_TTL_SECS * 1000,
        None => false,
    }
}

/// The body of the answer where the script could not be fetched and nothing
/// is cached: the failure, and the command to fetch it directly.
pub open spec fn fetch_failed_text(url: Seq<char>, error: Seq<char>) -> Seq<char> {
    "could not fetch the backup script from "@ + url + ": "@ + error
        + "\nfetch it directly with: curl -fsSL '"@ + url + "' -o tetron-backup.sh"@
}

/// How the proxy answers once it tried to fetch the script from `url`: the
/// fresh script (kept as the new cache); where the fetch failed, the last
/// known copy if there is one (stale beats an unreachable upstream); else
/// 502 naming the direct URL. Every answer tells the browser not to cache it.
pub fn backup_after_fetch(url: &str, fetched: Result<String, String>, cached: Option<String>) -> (r: BackupOutcome)
    ensures
        r.reply.cache_control@ == "no-cache"@,
        match fetched {
            Ok(body) => {
                &&& r.reply.status == 200
                &&& r.reply.content_type@ == "text/x-shellscript"@
                &&& r.reply.body@ == body@
                &&& r.store matches Some(s) && s@ == body@
            },
            Err(e) => {
                &&& r.store is None
                &&& match cached {
                    Some(c) => {
                        &&& r.reply.status == 200
                        &&& r.reply.content_type@ == "text/x-shellscript"@
                        &&& r.reply.body@ == c@
                    },
                    None => {
                        &&& r.reply.status == 502
                        &&& r.reply.content_type@ == "text/plain"@
                        &&& r.reply.body@ == fetch_failed_text(url@, e@)
                    },
                }
            },
        },
{
    match fetched {
        Ok(body) => {
            let keep = body.clone();
            BackupOutcome { reply: serve_backup_ok(body), store: Some(keep) }
        },
        Err(e) => match cached {
            Some(c) => BackupOutcome { reply: serve_backup_ok(c), store: None },
            None => {
                let mut m = String::from_str("could not fetch the backup script from ");
                m.append(url);
                m.append(": ");
                m.append(e.as_str());
                m.append("\nfetch it directly with: curl -fsSL '");
                m.append(url);
                m.append("' -o tetron-backup.sh");
                BackupOutcome {
                    reply: BackupReply { status: 502, content_type: "text/plain", cache_control: "no-cache", body: m },
                    store: None,
                }
            },
        },
    }
}

/// The text of a byte string that is not valid UTF-8, as
/// `String::from_utf8`'s error prints it.
pub uninterp spec fn utf8_error_text(bytes: Seq<u8>) -> Seq<char>;

/// Calls `String::from_utf8` on the fetched bytes: their text where they are
/// valid UTF-8, else the error's text.
#[verifier::external_body]
pub fn script_text(bytes: Vec<u8>) -> (r: Result<String, String>)
    ensures
        (match r {
            Ok(s) => vstd::utf8::valid_utf8(bytes@) && s@ == vstd::utf8::decode_utf8(bytes@),
            Err(e) => !vstd::utf8::valid_utf8(bytes@) && e@ == utf8_error_text(bytes@),
        }),
{
    match String::from_utf8(bytes) {
        Ok(s) => Ok(s),
        Err(e) => Err(e.to_string()),
    }
}

} // verus!

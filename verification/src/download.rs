//! The ranged-download helper: Range header construction, the download
//! request description, the success decision, and the append-or-truncate
//! decision for resumable writes.

use vstd::prelude::*;
use vstd::string::StringExecFns;
use crate::config::Config;
use crate::envelope::spec_status_ok;
use crate::envelope::status_ok;
use crate::error::Error;
use crate::num::dec_chars;
use crate::num::u64_to_string;
use crate::query::build_url;
use crate::query::query_ready_url_of;
use crate::query::s_to_string;
use crate::query::spec_api_url;

verus! {

/// The Range header value for optional inclusive byte bounds: exactly the
/// four literal shapes, one per combination of bounds.
pub open spec fn spec_range_header(start: Option<u64>, end: Option<u64>) -> Seq<char> {
    match (start, end) {
        (Some(s), Some(e)) => "bytes="@ + dec_chars(s as nat) + "-"@ + dec_chars(e as nat),
        (Some(s), None) => "bytes="@ + dec_chars(s as nat) + "-"@,
        (None, Some(e)) => "bytes=-"@ + dec_chars(e as nat),
        (None, None) => "bytes=0-"@,
    }
}

/// Renders the Range header value; a pure function of the two bounds.
pub fn build_range_header(start: Option<u64>, end: Option<u64>) -> (r: String)
    ensures
        r@ == spec_range_header(start, end),
{
    let mut out = String::new();
    match (start, end) {
        (Some(s), Some(e)) => {
            out.append("bytes=");
            let sd = u64_to_string(s);
            out.append(sd.as_str());
            out.append("-");
            let ed = u64_to_string(e);
            out.append(ed.as_str());
        },
        (Some(s), None) => {
            out.append("bytes=");
            let sd = u64_to_string(s);
            out.append(sd.as_str());
            out.append("-");
        },
        (None, Some(e)) => {
            out.append("bytes=-");
            let ed = u64_to_string(e);
            out.append(ed.as_str());
        },
        (None, None) => {
            out.append("bytes=0-");
        },
    }
    out
}

/// Everything the transport needs to fetch (part of) a remote object.
#[derive(Debug, Clone)]
pub struct DownloadRequest {
    /// The signed link with the access token appended as a query parameter.
    pub url: String,
    /// Range header value, present exactly when a bound was given.
    pub range: Option<String>,
    /// The provider-mandated User-Agent for download requests.
    pub user_agent: String,
}

/// Describes the request for an optionally ranged download of `dlink`.
/// Fails exactly when the link does not parse as a URL.
pub fn download_request(config: &Config, dlink: &str, start: Option<u64>, end: Option<u64>) -> (r:
    Result<DownloadRequest, Error>)
    ensures
        r is Ok <==> query_ready_url_of(dlink@) is Some,
        r matches Ok(d) ==> {
            &&& d.url@ == spec_api_url(
                dlink@,
                seq![("access_token"@, config.access_token@)],
            )
            &&& ((start is None && end is None) ==> d.range is None)
            &&& ((start is Some || end is Some) ==> (d.range matches Some(h) && h@
                == spec_range_header(start, end)))
            &&& d.user_agent@ == "pan.baidu.com"@
        },
        r matches Err(e) ==> e matches Error::UrlParseError(m) && m@ == dlink@,
{
    let mut params: Vec<(String, String)> = Vec::new();
    params.push((s_to_string("access_token"), config.access_token.clone()));
    proof {
        assert(params.deep_view() =~= seq![("access_token"@, config.access_token@)]);
    }
    let url = match build_url(dlink, &params) {
        Ok(u) => u,
        Err(e) => {
            return Err(e);
        },
    };
    let range = if start.is_some() || end.is_some() {
        Some(build_range_header(start, end))
    } else {
        None
    };
    Ok(DownloadRequest { url, range, user_agent: s_to_string("pan.baidu.com") })
}

/// Decides whether a download response succeeded: 2xx and 206 pass; any
/// other status is an application error carrying the status as its code
/// and the body verbatim as its message.
pub fn check_download_status(status: u16, body: String) -> (r: Result<(), Error>)
    ensures
        spec_status_ok(status) <==> r is Ok,
        r matches Err(e) ==> e matches Error::ApiError { errno, message } && errno == status as i32
            && message@ == body@,
{
    if status_ok(status) {
        Ok(())
    } else {
        Err(Error::ApiError { errno: status as i32, message: body })
    }
}

/// How the destination file is opened when a download is written out.
#[derive(Debug, Clone, Copy, PartialEq, Eq, Structural)]
pub enum WriteMode {
    /// Create the destination, or truncate what is there.
    Truncate,
    /// Append to the destination: resume semantics, for a download that
    /// starts at a non-zero offset.
    Append,
}

/// Append exactly when a non-zero start offset was requested.
pub fn download_write_mode(start: Option<u64>) -> (r: WriteMode)
    ensures
        (r == WriteMode::Append) <==> (start matches Some(s) && s != 0),
{
    match start {
        Some(s) if s != 0 => WriteMode::Append,
        _ => WriteMode::Truncate,
    }
}

} // verus!

//! Request descriptions for every endpoint: the fully resolved URL (with
//! the access token as a query parameter), the method, and the body. The
//! surrounding application sends them over HTTP.

use vstd::prelude::*;
use vstd::string::StringExecFns;
use vstd::utf8::encode_utf8;
use crate::codec::append_json_escaped;
use crate::codec::append_json_move_list;
use crate::codec::append_json_path_list;
use crate::codec::append_json_rename_list;
use crate::codec::append_json_string;
use crate::codec::append_json_string_list;
use crate::codec::append_str_bytes;
use crate::codec::spec_json_move_list;
use crate::codec::spec_json_path_list;
use crate::codec::spec_json_rename_list;
use crate::codec::spec_json_string;
use crate::codec::spec_json_string_list;
use crate::codec::spec_json_string_of;
use crate::config::Config;
use crate::error::Error;
use crate::num::dec_chars;
use crate::num::dec_digits;
use crate::num::u64_to_dec_bytes;
use crate::num::u64_to_string;
use crate::query::build_query;
use crate::query::build_url;
use crate::query::query_ready_url_of;
use crate::query::s_to_string;
use crate::query::spec_api_url;
use crate::query::spec_query_items;
use crate::query::url_encode;
use crate::query::url_encode_bytes;
use crate::query::urlenc_bytes_of;
use crate::query::urlenc_of;

verus! {

/// HTTP method of a request.
#[derive(Debug, Clone, Copy, PartialEq, Eq, Structural)]
pub enum HttpMethod {
    Get,
    Post,
}

/// Body of a request.
#[derive(Debug, Clone, PartialEq, Eq)]
pub enum RequestBody {
    /// No body.
    Empty,
    /// A JSON document, sent with an `application/json` content type.
    Json(Vec<u8>),
    /// A form document, sent with an `application/x-www-form-urlencoded`
    /// content type.
    Form(String),
    /// One multipart part named `file`, holding raw chunk bytes.
    MultipartFile(Vec<u8>),
}

/// One fully described outgoing request.
#[derive(Debug, Clone, PartialEq, Eq)]
pub struct ApiRequest {
    /// HTTP method.
    pub method: HttpMethod,
    /// Fully resolved URL, query string included.
    pub url: String,
    /// Request body.
    pub body: RequestBody,
}

/// A query pair that is present only when its value was given.
pub open spec fn spec_opt_str(name: Seq<char>, v: Option<Seq<char>>) -> Seq<
    (Seq<char>, Seq<char>),
> {
    match v {
        Some(x) => seq![(name, x)],
        None => Seq::empty(),
    }
}

/// A numeric query pair that is present only when its value was given.
pub open spec fn spec_opt_num(name: Seq<char>, v: Option<u32>) -> Seq<(Seq<char>, Seq<char>)> {
    match v {
        Some(x) => seq![(name, dec_chars(x as nat))],
        None => Seq::empty(),
    }
}

/// Appends one pair to a parameter list.
fn push_pair(params: &mut Vec<(String, String)>, k: &str, v: String)
    ensures
        final(params).deep_view() == old(params).deep_view().push((k@, v@)),
{
    let ks = s_to_string(k);
    params.push((ks, v));
    proof {
        assert(params.deep_view() =~= old(params).deep_view().push((k@, v@)));
    }
}

/// Joins a base URL and an endpoint path.
fn endpoint(base: &String, path: &str) -> (r: String)
    ensures
        r@ == base@ + path@,
{
    base.clone().concat(path)
}

/// Assembles a request against `base + path` carrying `params` and `body`.
fn assemble(method: HttpMethod, base: &String, path: &str, params: &Vec<(String, String)>, body:
    RequestBody) -> (r: Result<ApiRequest, Error>)
    ensures
        r is Ok <==> query_ready_url_of(base@ + path@) is Some,
        r matches Ok(req) ==> {
            &&& req.method == method
            &&& req.url@ == spec_api_url(base@ + path@, params.deep_view())
            &&& req.body == body
        },
        r matches Err(e) ==> e matches Error::UrlParseError(m) && m@ == base@ + path@,
{
    let ep = endpoint(base, path);
    match build_url(ep.as_str(), params) {
        Ok(url) => Ok(ApiRequest { method, url, body }),
        Err(e) => Err(e),
    }
}

/// The serialized digest list as it is embedded in an upload body: the
/// JSON array of digests, wrapped in a JSON string literal.
pub open spec fn spec_block_list_field(bl: Seq<Seq<char>>) -> Seq<u8> {
    spec_json_string(spec_json_string_list(bl))
}

/// The JSON body of a precreate call.
pub open spec fn spec_precreate_body(path: Seq<char>, size: u64, bl: Seq<Seq<char>>) -> Seq<u8> {
    encode_utf8("{\"autoinit\":1,\"block_list\":"@) + spec_block_list_field(bl) + encode_utf8(
        ",\"isdir\":0,\"path\":"@,
    ) + spec_json_string_of(path) + encode_utf8(",\"rtype\":1,\"size\":"@) + dec_digits(
        size as nat,
    ) + encode_utf8("}"@)
}

/// The JSON body of a create call.
pub open spec fn spec_create_body(
    path: Seq<char>,
    size: u64,
    uploadid: Seq<char>,
    bl: Seq<Seq<char>>,
) -> Seq<u8> {
    encode_utf8("{\"block_list\":"@) + spec_block_list_field(bl) + encode_utf8(
        ",\"isdir\":0,\"path\":"@,
    ) + spec_json_string_of(path) + encode_utf8(",\"rtype\":1,\"size\":"@) + dec_digits(
        size as nat,
    ) + encode_utf8(",\"uploadid\":"@) + spec_json_string_of(uploadid) + encode_utf8("}"@)
}

/// Appends the serialized digest list field to a body.
fn append_block_list_field(out: &mut Vec<u8>, block_list: &Vec<String>)
    ensures
        final(out)@ == old(out)@ + spec_block_list_field(block_list.deep_view()),
{
    let mut arr: Vec<u8> = Vec::new();
    append_json_string_list(&mut arr, block_list);
    out.push(0x22);
    append_json_escaped(out, arr.as_slice());
    out.push(0x22);
    proof {
        assert(final(out)@ =~= old(out)@ + spec_block_list_field(block_list.deep_view()));
    }
}

/// Builds the JSON body of a precreate call.
fn build_precreate_body(path: &str, size: u64, block_list: &Vec<String>) -> (r: Vec<u8>)
    ensures
        r@ == spec_precreate_body(path@, size, block_list.deep_view()),
{
    let mut body: Vec<u8> = Vec::new();
    append_str_bytes(&mut body, "{\"autoinit\":1,\"block_list\":");
    append_block_list_field(&mut body, block_list);
    append_str_bytes(&mut body, ",\"isdir\":0,\"path\":");
    append_json_string(&mut body, path);
    append_str_bytes(&mut body, ",\"rtype\":1,\"size\":");
    let mut sd = u64_to_dec_bytes(size);
    body.append(&mut sd);
    append_str_bytes(&mut body, "}");
    proof {
        assert(body@ =~= spec_precreate_body(path@, size, block_list.deep_view()));
    }
    body
}

/// Builds the JSON body of a create call.
fn build_create_body(path: &str, size: u64, uploadid: &str, block_list: &Vec<String>) -> (r: Vec<
    u8,
>)
    ensures
        r@ == spec_create_body(path@, size, uploadid@, block_list.deep_view()),
{
    let mut body: Vec<u8> = Vec::new();
    append_str_bytes(&mut body, "{\"block_list\":");
    append_block_list_field(&mut body, block_list);
    append_str_bytes(&mut body, ",\"isdir\":0,\"path\":");
    append_json_string(&mut body, path);
    append_str_bytes(&mut body, ",\"rtype\":1,\"size\":");
    let mut sd = u64_to_dec_bytes(size);
    body.append(&mut sd);
    append_str_bytes(&mut body, ",\"uploadid\":");
    append_json_string(&mut body, uploadid);
    append_str_bytes(&mut body, "}");
    proof {
        assert(body@ =~= spec_create_body(path@, size, uploadid@, block_list.deep_view()));
    }
    body
}

/// The query parameters shared by precreate and create.
pub open spec fn spec_upload_params(method: Seq<char>, token: Seq<char>) -> Seq<
    (Seq<char>, Seq<char>),
> {
    seq![("method"@, method), ("openapi"@, "xpansdk"@), ("access_token"@, token)]
}

/// Describes a precreate call: the digest list, size and remote path are
/// submitted, and the server answers with a fast-upload match or an upload
/// session id. Fails exactly when the configured base URL does not parse.
pub fn file_precreate_request(
    config: &Config,
    path: &str,
    size: u64,
    block_list: &Vec<String>,
) -> (r: Result<ApiRequest, Error>)
    ensures
        r is Ok <==> query_ready_url_of(config.server.pan_url@ + "/rest/2.0/xpan/file"@) is Some,
        r matches Ok(req) ==> {
            &&& req.method == HttpMethod::Post
            &&& req.url@ == spec_api_url(
                config.server.pan_url@ + "/rest/2.0/xpan/file"@,
                spec_upload_params("precreate"@, config.access_token@),
            )
            &&& req.body matches RequestBody::Json(b) && b@ == spec_precreate_body(
                path@,
                size,
                block_list.deep_view(),
            )
        },
        r matches Err(e) ==> e matches Error::UrlParseError(_),
{
    let mut params: Vec<(String, String)> = Vec::new();
    push_pair(&mut params, "method", s_to_string("precreate"));
    push_pair(&mut params, "openapi", s_to_string("xpansdk"));
    push_pair(&mut params, "access_token", config.access_token.clone());
    proof {
        assert(params.deep_view() =~= spec_upload_params("precreate"@, config.access_token@));
    }
    let body = build_precreate_body(path, size, block_list);
    assemble(
        HttpMethod::Post,
        &config.server.pan_url,
        "/rest/2.0/xpan/file",
        &params,
        RequestBody::Json(body),
    )
}

/// Describes a create call: the same digest list and size, plus the upload
/// session id, materialize the remote file. Fails exactly when the
/// configured base URL does not parse.
pub fn file_create_request(
    config: &Config,
    path: &str,
    size: u64,
    uploadid: &str,
    block_list: &Vec<String>,
) -> (r: Result<ApiRequest, Error>)
    ensures
        r is Ok <==> query_ready_url_of(config.server.pan_url@ + "/rest/2.0/xpan/file"@) is Some,
        r matches Ok(req) ==> {
            &&& req.method == HttpMethod::Post
            &&& req.url@ == spec_api_url(
                config.server.pan_url@ + "/rest/2.0/xpan/file"@,
                spec_upload_params("create"@, config.access_token@),
            )
            &&& req.body matches RequestBody::Json(b) && b@ == spec_create_body(
                path@,
                size,
                uploadid@,
                block_list.deep_view(),
            )
        },
        r matches Err(e) ==> e matches Error::UrlParseError(_),
{
    let mut params: Vec<(String, String)> = Vec::new();
    push_pair(&mut params, "method", s_to_string("create"));
    push_pair(&mut params, "openapi", s_to_string("xpansdk"));
    push_pair(&mut params, "access_token", config.access_token.clone());
    proof {
        assert(params.deep_view() =~= spec_upload_params("create"@, config.access_token@));
    }
    let body = build_create_body(path, size, uploadid, block_list);
    assemble(
        HttpMethod::Post,
        &config.server.pan_url,
        "/rest/2.0/xpan/file",
        &params,
        RequestBody::Json(body),
    )
}

/// The query parameters of a slice upload.
pub open spec fn spec_slice_params(
    path: Seq<char>,
    uploadid: Seq<char>,
    partseq: u64,
    token: Seq<char>,
) -> Seq<(Seq<char>, Seq<char>)> {
    seq![
        ("method"@, "upload"@),
        ("type"@, "tmpfile"@),
        ("path"@, path),
        ("uploadid"@, uploadid),
        ("partseq"@, dec_chars(partseq as nat)),
        ("openapi"@, "xpansdk"@),
        ("access_token"@, token),
    ]
}

/// Describes one slice upload: a multipart request carrying the raw chunk
/// bytes under the session id and the zero-based chunk index. The request
/// is a pure function of its arguments, so retrying one slice resends the
/// same bytes under the same index. Fails exactly when the configured base
/// URL does not parse.
pub fn upload_slice_request(
    config: &Config,
    path: &str,
    uploadid: &str,
    partseq: u64,
    data: &Vec<u8>,
) -> (r: Result<ApiRequest, Error>)
    ensures
        r is Ok <==> query_ready_url_of(
            config.server.pcs_url@ + "/rest/2.0/pcs/superfile2"@,
        ) is Some,
        r matches Ok(req) ==> {
            &&& req.method == HttpMethod::Post
            &&& req.url@ == spec_api_url(
                config.server.pcs_url@ + "/rest/2.0/pcs/superfile2"@,
                spec_slice_params(path@, uploadid@, partseq, config.access_token@),
            )
            &&& req.body matches RequestBody::MultipartFile(d) && d@ == data@
        },
        r matches Err(e) ==> e matches Error::UrlParseError(_),
{
    let mut params: Vec<(String, String)> = Vec::new();
    push_pair(&mut params, "method", s_to_string("upload"));
    push_pair(&mut params, "type", s_to_string("tmpfile"));
    push_pair(&mut params, "path", s_to_string(path));
    push_pair(&mut params, "uploadid", s_to_string(uploadid));
    push_pair(&mut params, "partseq", u64_to_string(partseq));
    push_pair(&mut params, "openapi", s_to_string("xpansdk"));
    push_pair(&mut params, "access_token", config.access_token.clone());
    proof {
        assert(params.deep_view() =~= spec_slice_params(
            path@,
            uploadid@,
            partseq,
            config.access_token@,
        ));
    }
    assemble(
        HttpMethod::Post,
        &config.server.pcs_url,
        "/rest/2.0/pcs/superfile2",
        &params,
        RequestBody::MultipartFile(data.clone()),
    )
}

/// The query parameters of a file-list call.
pub open spec fn spec_file_list_params(
    dir: Seq<char>,
    order: Option<Seq<char>>,
    desc: Option<u32>,
    start: Option<u32>,
    limit: Option<u32>,
    token: Seq<char>,
) -> Seq<(Seq<char>, Seq<char>)> {
    seq![("method"@, "list"@), ("dir"@, dir), ("openapi"@, "xpansdk"@)] + spec_opt_str(
        "order"@,
        order,
    ) + spec_opt_num("desc"@, desc) + spec_opt_num("start"@, start) + spec_opt_num("limit"@, limit)
        + seq![("access_token"@, token)]
}

/// Describes a file-list call for one directory, with optional ordering
/// and paging. Fails exactly when the configured base URL does not parse.
pub fn file_list_request(
    config: &Config,
    dir: &str,
    order: Option<&str>,
    desc: Option<u32>,
    start: Option<u32>,
    limit: Option<u32>,
) -> (r: Result<ApiRequest, Error>)
    ensures
        r is Ok <==> query_ready_url_of(config.server.pan_url@ + "/rest/2.0/xpan/file"@) is Some,
        r matches Ok(req) ==> {
            &&& req.method == HttpMethod::Get
            &&& req.url@ == spec_api_url(
                config.server.pan_url@ + "/rest/2.0/xpan/file"@,
                spec_file_list_params(
                    dir@,
                    order.deep_view(),
                    desc,
                    start,
                    limit,
                    config.access_token@,
                ),
            )
            &&& req.body is Empty
        },
        r matches Err(e) ==> e matches Error::UrlParseError(_),
{
    let mut params: Vec<(String, String)> = Vec::new();
    push_pair(&mut params, "method", s_to_string("list"));
    push_pair(&mut params, "dir", s_to_string(dir));
    push_pair(&mut params, "openapi", s_to_string("xpansdk"));
    if let Some(o) = order {
        push_pair(&mut params, "order", s_to_string(o));
    }
    if let Some(d) = desc {
        push_pair(&mut params, "desc", u64_to_string(d as u64));
    }
    if let Some(s) = start {
        push_pair(&mut params, "start", u64_to_string(s as u64));
    }
    if let Some(l) = limit {
        push_pair(&mut params, "limit", u64_to_string(l as u64));
    }
    push_pair(&mut params, "access_token", config.access_token.clone());
    proof {
        assert(params.deep_view() =~= spec_file_list_params(
            dir@,
            order.deep_view(),
            desc,
            start,
            limit,
            config.access_token@,
        ));
    }
    assemble(HttpMethod::Get, &config.server.pan_url, "/rest/2.0/xpan/file", &params,
        RequestBody::Empty)
}

/// The query parameters of a file-search call.
pub open spec fn spec_file_search_params(
    key: Seq<char>,
    dir: Option<Seq<char>>,
    recursion: Option<u32>,
    token: Seq<char>,
) -> Seq<(Seq<char>, Seq<char>)> {
    seq![("method"@, "search"@), ("key"@, key), ("openapi"@, "xpansdk"@)] + spec_opt_str(
        "dir"@,
        dir,
    ) + spec_opt_num("recursion"@, recursion) + seq![("access_token"@, token)]
}

/// Describes a file search by keyword, optionally under one directory and
/// recursive. Fails exactly when the configured base URL does not parse.
pub fn file_search_request(
    config: &Config,
    key: &str,
    dir: Option<&str>,
    recursion: Option<u32>,
) -> (r: Result<ApiRequest, Error>)
    ensures
        r is Ok <==> query_ready_url_of(config.server.pan_url@ + "/rest/2.0/xpan/file"@) is Some,
        r matches Ok(req) ==> {
            &&& req.method == HttpMethod::Get
            &&& req.url@ == spec_api_url(
                config.server.pan_url@ + "/rest/2.0/xpan/file"@,
                spec_file_search_params(key@, dir.deep_view(), recursion, config.access_token@),
            )
            &&& req.body is Empty
        },
        r matches Err(e) ==> e matches Error::UrlParseError(_),
{
    let mut params: Vec<(String, String)> = Vec::new();
    push_pair(&mut params, "method", s_to_string("search"));
    push_pair(&mut params, "key", s_to_string(key));
    push_pair(&mut params, "openapi", s_to_string("xpansdk"));
    if let Some(d) = dir {
        push_pair(&mut params, "dir", s_to_string(d));
    }
    if let Some(rc) = recursion {
        push_pair(&mut params, "recursion", u64_to_string(rc as u64));
    }
    push_pair(&mut params, "access_token", config.access_token.clone());
    proof {
        assert(params.deep_view() =~= spec_file_search_params(
            key@,
            dir.deep_view(),
            recursion,
            config.access_token@,
        ));
    }
    assemble(HttpMethod::Get, &config.server.pan_url, "/rest/2.0/xpan/file", &params,
        RequestBody::Empty)
}

/// The query parameters of a categorized-list call (images or documents).
pub open spec fn spec_category_list_params(method: Seq<char>, token: Seq<char>) -> Seq<
    (Seq<char>, Seq<char>),
> {
    seq![("method"@, method), ("openapi"@, "xpansdk"@), ("access_token"@, token)]
}

/// Describes the image-list call. Fails exactly when the configured base
/// URL does not parse.
pub fn file_image_list_request(config: &Config) -> (r: Result<ApiRequest, Error>)
    ensures
        r is Ok <==> query_ready_url_of(config.server.pan_url@ + "/rest/2.0/xpan/file"@) is Some,
        r matches Ok(req) ==> {
            &&& req.method == HttpMethod::Get
            &&& req.url@ == spec_api_url(
                config.server.pan_url@ + "/rest/2.0/xpan/file"@,
                spec_category_list_params("imagelist"@, config.access_token@),
            )
            &&& req.body is Empty
        },
        r matches Err(e) ==> e matches Error::UrlParseError(_),
{
    let mut params: Vec<(String, String)> = Vec::new();
    push_pair(&mut params, "method", s_to_string("imagelist"));
    push_pair(&mut params, "openapi", s_to_string("xpansdk"));
    push_pair(&mut params, "access_token", config.access_token.clone());
    proof {
        assert(params.deep_view() =~= spec_category_list_params(
            "imagelist"@,
            config.access_token@,
        ));
    }
    assemble(HttpMethod::Get, &config.server.pan_url, "/rest/2.0/xpan/file", &params,
        RequestBody::Empty)
}

/// Describes the document-list call. Fails exactly when the configured
/// base URL does not parse.
pub fn file_doc_list_request(config: &Config) -> (r: Result<ApiRequest, Error>)
    ensures
        r is Ok <==> query_ready_url_of(config.server.pan_url@ + "/rest/2.0/xpan/file"@) is Some,
        r matches Ok(req) ==> {
            &&& req.method == HttpMethod::Get
            &&& req.url@ == spec_api_url(
                config.server.pan_url@ + "/rest/2.0/xpan/file"@,
                spec_category_list_params("doclist"@, config.access_token@),
            )
            &&& req.body is Empty
        },
        r matches Err(e) ==> e matches Error::UrlParseError(_),
{
    let mut params: Vec<(String, String)> = Vec::new();
    push_pair(&mut params, "method", s_to_string("doclist"));
    push_pair(&mut params, "openapi", s_to_string("xpansdk"));
    push_pair(&mut params, "access_token", config.access_token.clone());
    proof {
        assert(params.deep_view() =~= spec_category_list_params("doclist"@, config.access_token@));
    }
    assemble(HttpMethod::Get, &config.server.pan_url, "/rest/2.0/xpan/file", &params,
        RequestBody::Empty)
}

/// The query parameters of a file-management call.
pub open spec fn spec_manager_params(opera: Seq<char>, token: Seq<char>) -> Seq<
    (Seq<char>, Seq<char>),
> {
    seq![
        ("method"@, "filemanager"@),
        ("opera"@, opera),
        ("openapi"@, "xpansdk"@),
        ("access_token"@, token),
    ]
}

fn manager_params(opera: &str, config: &Config) -> (r: Vec<(String, String)>)
    ensures
        r.deep_view() == spec_manager_params(opera@, config.access_token@),
{
    let mut params: Vec<(String, String)> = Vec::new();
    push_pair(&mut params, "method", s_to_string("filemanager"));
    push_pair(&mut params, "opera", s_to_string(opera));
    push_pair(&mut params, "openapi", s_to_string("xpansdk"));
    push_pair(&mut params, "access_token", config.access_token.clone());
    proof {
        assert(params.deep_view() =~= spec_manager_params(opera@, config.access_token@));
    }
    params
}

/// The form body of a file-management call: a synchronous operation over
/// the url-encoded `filelist` document `j`.
pub open spec fn spec_filelist_form(j: Seq<u8>) -> Seq<char> {
    urlenc_of("async"@) + "="@ + urlenc_of("0"@) + "&"@ + urlenc_of("filelist"@) + "="@
        + urlenc_bytes_of(j)
}

fn build_filelist_form(json: &Vec<u8>) -> (r: String)
    ensures
        r@ == spec_filelist_form(json@),
{
    let mut out = String::new();
    let k1 = url_encode("async");
    out.append(k1.as_str());
    out.append("=");
    let v1 = url_encode("0");
    out.append(v1.as_str());
    out.append("&");
    let k2 = url_encode("filelist");
    out.append(k2.as_str());
    out.append("=");
    let v2 = url_encode_bytes(json.as_slice());
    out.append(v2.as_str());
    out
}

/// The form body of a directory-creation call.
pub open spec fn spec_create_dir_form(path: Seq<char>) -> Seq<char> {
    spec_query_items(seq![("path"@, path), ("isdir"@, "1"@), ("rtype"@, "0"@)])
}

/// Describes a directory-creation call. Fails exactly when the configured
/// base URL does not parse.
pub fn create_dir_request(config: &Config, path: &str) -> (r: Result<ApiRequest, Error>)
    ensures
        r is Ok <==> query_ready_url_of(config.server.pan_url@ + "/rest/2.0/xpan/file"@) is Some,
        r matches Ok(req) ==> {
            &&& req.method == HttpMethod::Post
            &&& req.url@ == spec_api_url(
                config.server.pan_url@ + "/rest/2.0/xpan/file"@,
                spec_category_list_params("create"@, config.access_token@),
            )
            &&& req.body matches RequestBody::Form(f) && f@ == spec_create_dir_form(path@)
        },
        r matches Err(e) ==> e matches Error::UrlParseError(_),
{
    let mut params: Vec<(String, String)> = Vec::new();
    push_pair(&mut params, "method", s_to_string("create"));
    push_pair(&mut params, "openapi", s_to_string("xpansdk"));
    push_pair(&mut params, "access_token", config.access_token.clone());
    proof {
        assert(params.deep_view() =~= spec_category_list_params("create"@, config.access_token@));
    }
    let mut form_pairs: Vec<(String, String)> = Vec::new();
    push_pair(&mut form_pairs, "path", s_to_string(path));
    push_pair(&mut form_pairs, "isdir", s_to_string("1"));
    push_pair(&mut form_pairs, "rtype", s_to_string("0"));
    proof {
        assert(form_pairs.deep_view() =~= seq![
            ("path"@, path@),
            ("isdir"@, "1"@),
            ("rtype"@, "0"@),
        ]);
    }
    let form = build_query(&form_pairs);
    assemble(
        HttpMethod::Post,
        &config.server.pan_url,
        "/rest/2.0/xpan/file",
        &params,
        RequestBody::Form(form),
    )
}

/// Describes a delete call over a list of remote paths. Fails exactly when
/// the configured base URL does not parse.
pub fn delete_files_request(config: &Config, paths: &Vec<String>) -> (r: Result<ApiRequest, Error>)
    ensures
        r is Ok <==> query_ready_url_of(config.server.pan_url@ + "/rest/2.0/xpan/file"@) is Some,
        r matches Ok(req) ==> {
            &&& req.method == HttpMethod::Post
            &&& req.url@ == spec_api_url(
                config.server.pan_url@ + "/rest/2.0/xpan/file"@,
                spec_manager_params("delete"@, config.access_token@),
            )
            &&& req.body matches RequestBody::Form(f) && f@ == spec_filelist_form(
                spec_json_path_list(paths.deep_view()),
            )
        },
        r matches Err(e) ==> e matches Error::UrlParseError(_),
{
    let params = manager_params("delete", config);
    let mut json: Vec<u8> = Vec::new();
    append_json_path_list(&mut json, paths);
    let form = build_filelist_form(&json);
    assemble(
        HttpMethod::Post,
        &config.server.pan_url,
        "/rest/2.0/xpan/file",
        &params,
        RequestBody::Form(form),
    )
}

/// Describes a move call pairing each source path with a destination.
/// Rejected locally when the two lists differ in length; otherwise fails
/// exactly when the configured base URL does not parse.
pub fn move_files_request(config: &Config, from_paths: &Vec<String>, to_paths: &Vec<String>) -> (r:
    Result<ApiRequest, Error>)
    ensures
        from_paths@.len() != to_paths@.len() ==> (r matches Err(e) && e matches Error::ParamError(
            m,
        ) && m@ == "from_paths and to_paths differ in length"@),
        from_paths@.len() == to_paths@.len() ==> {
            &&& r is Ok <==> query_ready_url_of(
                config.server.pan_url@ + "/rest/2.0/xpan/file"@,
            ) is Some
            &&& (r matches Ok(req) ==> {
                &&& req.method == HttpMethod::Post
                &&& req.url@ == spec_api_url(
                    config.server.pan_url@ + "/rest/2.0/xpan/file"@,
                    spec_manager_params("move"@, config.access_token@),
                )
                &&& req.body matches RequestBody::Form(f) && f@ == spec_filelist_form(
                    spec_json_move_list(from_paths.deep_view(), to_paths.deep_view()),
                )
            })
            &&& (r matches Err(e) ==> e matches Error::UrlParseError(_))
        },
{
    if from_paths.len() != to_paths.len() {
        return Err(Error::ParamError(s_to_string("from_paths and to_paths differ in length")));
    }
    let params = manager_params("move", config);
    let mut json: Vec<u8> = Vec::new();
    append_json_move_list(&mut json, from_paths, to_paths);
    let form = build_filelist_form(&json);
    assemble(
        HttpMethod::Post,
        &config.server.pan_url,
        "/rest/2.0/xpan/file",
        &params,
        RequestBody::Form(form),
    )
}

/// Describes a copy call pairing each source path with a destination.
/// Rejected locally when the two lists differ in length; otherwise fails
/// exactly when the configured base URL does not parse.
pub fn copy_files_request(config: &Config, from_paths: &Vec<String>, to_paths: &Vec<String>) -> (r:
    Result<ApiRequest, Error>)
    ensures
        from_paths@.len() != to_paths@.len() ==> (r matches Err(e) && e matches Error::ParamError(
            m,
        ) && m@ == "from_paths and to_paths differ in length"@),
        from_paths@.len() == to_paths@.len() ==> {
            &&& r is Ok <==> query_ready_url_of(
                config.server.pan_url@ + "/rest/2.0/xpan/file"@,
            ) is Some
            &&& (r matches Ok(req) ==> {
                &&& req.method == HttpMethod::Post
                &&& req.url@ == spec_api_url(
                    config.server.pan_url@ + "/rest/2.0/xpan/file"@,
                    spec_manager_params("copy"@, config.access_token@),
                )
                &&& req.body matches RequestBody::Form(f) && f@ == spec_filelist_form(
                    spec_json_move_list(from_paths.deep_view(), to_paths.deep_view()),
                )
            })
            &&& (r matches Err(e) ==> e matches Error::UrlParseError(_))
        },
{
    if from_paths.len() != to_paths.len() {
        return Err(Error::ParamError(s_to_string("from_paths and to_paths differ in length")));
    }
    let params = manager_params("copy", config);
    let mut json: Vec<u8> = Vec::new();
    append_json_move_list(&mut json, from_paths, to_paths);
    let form = build_filelist_form(&json);
    assemble(
        HttpMethod::Post,
        &config.server.pan_url,
        "/rest/2.0/xpan/file",
        &params,
        RequestBody::Form(form),
    )
}

/// Describes a rename call for one remote path. Fails exactly when the
/// configured base URL does not parse.
pub fn rename_file_request(config: &Config, path: &str, new_name: &str) -> (r: Result<
    ApiRequest,
    Error,
>)
    ensures
        r is Ok <==> query_ready_url_of(config.server.pan_url@ + "/rest/2.0/xpan/file"@) is Some,
        r matches Ok(req) ==> {
            &&& req.method == HttpMethod::Post
            &&& req.url@ == spec_api_url(
                config.server.pan_url@ + "/rest/2.0/xpan/file"@,
                spec_manager_params("rename"@, config.access_token@),
            )
            &&& req.body matches RequestBody::Form(f) && f@ == spec_filelist_form(
                spec_json_rename_list(path@, new_name@),
            )
        },
        r matches Err(e) ==> e matches Error::UrlParseError(_),
{
    let params = manager_params("rename", config);
    let mut json: Vec<u8> = Vec::new();
    append_json_rename_list(&mut json, path, new_name);
    let form = build_filelist_form(&json);
    assemble(
        HttpMethod::Post,
        &config.server.pan_url,
        "/rest/2.0/xpan/file",
        &params,
        RequestBody::Form(form),
    )
}

/// The query parameters of a recursive-list call.
pub open spec fn spec_list_all_params(
    path: Seq<char>,
    recursion: u32,
    start: Option<u32>,
    limit: Option<u32>,
    token: Seq<char>,
) -> Seq<(Seq<char>, Seq<char>)> {
    seq![
        ("method"@, "listall"@),
        ("path"@, path),
        ("recursion"@, dec_chars(recursion as nat)),
        ("openapi"@, "xpansdk"@),
    ] + spec_opt_num("start"@, start) + spec_opt_num("limit"@, limit) + seq![
        ("access_token"@, token),
    ]
}

/// Describes a recursive file-list call under one path. Fails exactly when
/// the configured base URL does not parse.
pub fn file_list_all_request(
    config: &Config,
    path: &str,
    recursion: u32,
    start: Option<u32>,
    limit: Option<u32>,
) -> (r: Result<ApiRequest, Error>)
    ensures
        r is Ok <==> query_ready_url_of(
            config.server.pan_url@ + "/rest/2.0/xpan/multimedia"@,
        ) is Some,
        r matches Ok(req) ==> {
            &&& req.method == HttpMethod::Get
            &&& req.url@ == spec_api_url(
                config.server.pan_url@ + "/rest/2.0/xpan/multimedia"@,
                spec_list_all_params(path@, recursion, start, limit, config.access_token@),
            )
            &&& req.body is Empty
        },
        r matches Err(e) ==> e matches Error::UrlParseError(_),
{
    let mut params: Vec<(String, String)> = Vec::new();
    push_pair(&mut params, "method", s_to_string("listall"));
    push_pair(&mut params, "path", s_to_string(path));
    push_pair(&mut params, "recursion", u64_to_string(recursion as u64));
    push_pair(&mut params, "openapi", s_to_string("xpansdk"));
    if let Some(s) = start {
        push_pair(&mut params, "start", u64_to_string(s as u64));
    }
    if let Some(l) = limit {
        push_pair(&mut params, "limit", u64_to_string(l as u64));
    }
    push_pair(&mut params, "access_token", config.access_token.clone());
    proof {
        assert(params.deep_view() =~= spec_list_all_params(
            path@,
            recursion,
            start,
            limit,
            config.access_token@,
        ));
    }
    assemble(HttpMethod::Get, &config.server.pan_url, "/rest/2.0/xpan/multimedia", &params,
        RequestBody::Empty)
}

/// The query parameters of a metadata call.
pub open spec fn spec_file_metas_params(
    fsids: Seq<char>,
    dlink: Option<u32>,
    thumb: Option<Seq<char>>,
    extra: Option<u32>,
    needmedia: Option<u32>,
    token: Seq<char>,
) -> Seq<(Seq<char>, Seq<char>)> {
    seq![("method"@, "filemetas"@), ("fsids"@, fsids), ("openapi"@, "xpansdk"@)] + spec_opt_num(
        "dlink"@,
        dlink,
    ) + spec_opt_str("thumb"@, thumb) + spec_opt_num("extra"@, extra) + spec_opt_num(
        "needmedia"@,
        needmedia,
    ) + seq![("access_token"@, token)]
}

/// Describes a metadata call over a bracketed list of file ids; setting
/// `dlink` asks for signed download links. Fails exactly when the
/// configured base URL does not parse.
pub fn file_metas_request(
    config: &Config,
    fsids: &str,
    dlink: Option<u32>,
    thumb: Option<&str>,
    extra: Option<u32>,
    needmedia: Option<u32>,
) -> (r: Result<ApiRequest, Error>)
    ensures
        r is Ok <==> query_ready_url_of(
            config.server.pan_url@ + "/rest/2.0/xpan/multimedia"@,
        ) is Some,
        r matches Ok(req) ==> {
            &&& req.method == HttpMethod::Get
            &&& req.url@ == spec_api_url(
                config.server.pan_url@ + "/rest/2.0/xpan/multimedia"@,
                spec_file_metas_params(
                    fsids@,
                    dlink,
                    thumb.deep_view(),
                    extra,
                    needmedia,
                    config.access_token@,
                ),
            )
            &&& req.body is Empty
        },
        r matches Err(e) ==> e matches Error::UrlParseError(_),
{
    let mut params: Vec<(String, String)> = Vec::new();
    push_pair(&mut params, "method", s_to_string("filemetas"));
    push_pair(&mut params, "fsids", s_to_string(fsids));
    push_pair(&mut params, "openapi", s_to_string("xpansdk"));
    if let Some(d) = dlink {
        push_pair(&mut params, "dlink", u64_to_string(d as u64));
    }
    if let Some(t) = thumb {
        push_pair(&mut params, "thumb", s_to_string(t));
    }
    if let Some(e) = extra {
        push_pair(&mut params, "extra", u64_to_string(e as u64));
    }
    if let Some(n) = needmedia {
        push_pair(&mut params, "needmedia", u64_to_string(n as u64));
    }
    push_pair(&mut params, "access_token", config.access_token.clone());
    proof {
        assert(params.deep_view() =~= spec_file_metas_params(
            fsids@,
            dlink,
            thumb.deep_view(),
            extra,
            needmedia,
            config.access_token@,
        ));
    }
    assemble(HttpMethod::Get, &config.server.pan_url, "/rest/2.0/xpan/multimedia", &params,
        RequestBody::Empty)
}

/// Describes the account-information call. Fails exactly when the
/// configured base URL does not parse.
pub fn get_user_info_request(config: &Config) -> (r: Result<ApiRequest, Error>)
    ensures
        r is Ok <==> query_ready_url_of(config.server.pan_url@ + "/rest/2.0/xpan/nas"@) is Some,
        r matches Ok(req) ==> {
            &&& req.method == HttpMethod::Get
            &&& req.url@ == spec_api_url(
                config.server.pan_url@ + "/rest/2.0/xpan/nas"@,
                spec_category_list_params("uinfo"@, config.access_token@),
            )
            &&& req.body is Empty
        },
        r matches Err(e) ==> e matches Error::UrlParseError(_),
{
    let mut params: Vec<(String, String)> = Vec::new();
    push_pair(&mut params, "method", s_to_string("uinfo"));
    push_pair(&mut params, "openapi", s_to_string("xpansdk"));
    push_pair(&mut params, "access_token", config.access_token.clone());
    proof {
        assert(params.deep_view() =~= spec_category_list_params("uinfo"@, config.access_token@));
    }
    assemble(HttpMethod::Get, &config.server.pan_url, "/rest/2.0/xpan/nas", &params,
        RequestBody::Empty)
}

/// The query parameters of the quota call.
pub open spec fn spec_quota_params(token: Seq<char>) -> Seq<(Seq<char>, Seq<char>)> {
    seq![
        ("checkfree"@, "1"@),
        ("checkexpire"@, "1"@),
        ("openapi"@, "xpansdk"@),
        ("access_token"@, token),
    ]
}

/// Describes the quota call. Fails exactly when the configured base URL
/// does not parse.
pub fn get_quota_request(config: &Config) -> (r: Result<ApiRequest, Error>)
    ensures
        r is Ok <==> query_ready_url_of(config.server.pan_url@ + "/api/quota"@) is Some,
        r matches Ok(req) ==> {
            &&& req.method == HttpMethod::Get
            &&& req.url@ == spec_api_url(
                config.server.pan_url@ + "/api/quota"@,
                spec_quota_params(config.access_token@),
            )
            &&& req.body is Empty
        },
        r matches Err(e) ==> e matches Error::UrlParseError(_),
{
    let mut params: Vec<(String, String)> = Vec::new();
    push_pair(&mut params, "checkfree", s_to_string("1"));
    push_pair(&mut params, "checkexpire", s_to_string("1"));
    push_pair(&mut params, "openapi", s_to_string("xpansdk"));
    push_pair(&mut params, "access_token", config.access_token.clone());
    proof {
        assert(params.deep_view() =~= spec_quota_params(config.access_token@));
    }
    assemble(HttpMethod::Get, &config.server.pan_url, "/api/quota", &params, RequestBody::Empty)
}

/// The query parameters of an authorization-code token exchange.
pub open spec fn spec_oauth_code_params(
    code: Seq<char>,
    client_id: Seq<char>,
    client_secret: Seq<char>,
    redirect_uri: Seq<char>,
) -> Seq<(Seq<char>, Seq<char>)> {
    seq![
        ("grant_type"@, "authorization_code"@),
        ("code"@, code),
        ("client_id"@, client_id),
        ("client_secret"@, client_secret),
        ("redirect_uri"@, redirect_uri),
        ("openapi"@, "xpansdk"@),
    ]
}

/// Describes the authorization-code token exchange. Carries no access
/// token: it is how one is obtained. Fails exactly when the fixed
/// authentication URL does not parse (it does at runtime).
pub fn oauth_token_code2token_request(
    code: &str,
    client_id: &str,
    client_secret: &str,
    redirect_uri: &str,
) -> (r: Result<ApiRequest, Error>)
    ensures
        r is Ok <==> query_ready_url_of("https://openapi.baidu.com"@ + "/oauth/2.0/token"@) is Some,
        r matches Ok(req) ==> {
            &&& req.method == HttpMethod::Get
            &&& req.url@ == spec_api_url(
                "https://openapi.baidu.com"@ + "/oauth/2.0/token"@,
                spec_oauth_code_params(code@, client_id@, client_secret@, redirect_uri@),
            )
            &&& req.body is Empty
        },
        r matches Err(e) ==> e matches Error::UrlParseError(_),
{
    let mut params: Vec<(String, String)> = Vec::new();
    push_pair(&mut params, "grant_type", s_to_string("authorization_code"));
    push_pair(&mut params, "code", s_to_string(code));
    push_pair(&mut params, "client_id", s_to_string(client_id));
    push_pair(&mut params, "client_secret", s_to_string(client_secret));
    push_pair(&mut params, "redirect_uri", s_to_string(redirect_uri));
    push_pair(&mut params, "openapi", s_to_string("xpansdk"));
    proof {
        assert(params.deep_view() =~= spec_oauth_code_params(
            code@,
            client_id@,
            client_secret@,
            redirect_uri@,
        ));
    }
    let base = s_to_string("https://openapi.baidu.com");
    assemble(HttpMethod::Get, &base, "/oauth/2.0/token", &params, RequestBody::Empty)
}

/// The query parameters of a device-code request.
pub open spec fn spec_oauth_device_code_params(client_id: Seq<char>, scope: Seq<char>) -> Seq<
    (Seq<char>, Seq<char>),
> {
    seq![
        ("response_type"@, "device_code"@),
        ("client_id"@, client_id),
        ("scope"@, scope),
        ("openapi"@, "xpansdk"@),
    ]
}

/// Describes a device-code request. Fails exactly when the fixed
/// authentication URL does not parse (it does at runtime).
pub fn oauth_token_device_code_request(client_id: &str, scope: &str) -> (r: Result<
    ApiRequest,
    Error,
>)
    ensures
        r is Ok <==> query_ready_url_of(
            "https://openapi.baidu.com"@ + "/oauth/2.0/device/code"@,
        ) is Some,
        r matches Ok(req) ==> {
            &&& req.method == HttpMethod::Get
            &&& req.url@ == spec_api_url(
                "https://openapi.baidu.com"@ + "/oauth/2.0/device/code"@,
                spec_oauth_device_code_params(client_id@, scope@),
            )
            &&& req.body is Empty
        },
        r matches Err(e) ==> e matches Error::UrlParseError(_),
{
    let mut params: Vec<(String, String)> = Vec::new();
    push_pair(&mut params, "response_type", s_to_string("device_code"));
    push_pair(&mut params, "client_id", s_to_string(client_id));
    push_pair(&mut params, "scope", s_to_string(scope));
    push_pair(&mut params, "openapi", s_to_string("xpansdk"));
    proof {
        assert(params.deep_view() =~= spec_oauth_device_code_params(client_id@, scope@));
    }
    let base = s_to_string("https://openapi.baidu.com");
    assemble(HttpMethod::Get, &base, "/oauth/2.0/device/code", &params, RequestBody::Empty)
}

/// The query parameters of a device-token exchange.
pub open spec fn spec_oauth_device_token_params(
    device_code: Seq<char>,
    client_id: Seq<char>,
    client_secret: Seq<char>,
) -> Seq<(Seq<char>, Seq<char>)> {
    seq![
        ("grant_type"@, "device_token"@),
        ("code"@, device_code),
        ("client_id"@, client_id),
        ("client_secret"@, client_secret),
        ("openapi"@, "xpansdk"@),
    ]
}

/// Describes the device-token exchange. Fails exactly when the fixed
/// authentication URL does not parse (it does at runtime).
pub fn oauth_token_device_token_request(
    device_code: &str,
    client_id: &str,
    client_secret: &str,
) -> (r: Result<ApiRequest, Error>)
    ensures
        r is Ok <==> query_ready_url_of("https://openapi.baidu.com"@ + "/oauth/2.0/token"@) is Some,
        r matches Ok(req) ==> {
            &&& req.method == HttpMethod::Get
            &&& req.url@ == spec_api_url(
                "https://openapi.baidu.com"@ + "/oauth/2.0/token"@,
                spec_oauth_device_token_params(device_code@, client_id@, client_secret@),
            )
            &&& req.body is Empty
        },
        r matches Err(e) ==> e matches Error::UrlParseError(_),
{
    let mut params: Vec<(String, String)> = Vec::new();
    push_pair(&mut params, "grant_type", s_to_string("device_token"));
    push_pair(&mut params, "code", s_to_string(device_code));
    push_pair(&mut params, "client_id", s_to_string(client_id));
    push_pair(&mut params, "client_secret", s_to_string(client_secret));
    push_pair(&mut params, "openapi", s_to_string("xpansdk"));
    proof {
        assert(params.deep_view() =~= spec_oauth_device_token_params(
            device_code@,
            client_id@,
            client_secret@,
        ));
    }
    let base = s_to_string("https://openapi.baidu.com");
    assemble(HttpMethod::Get, &base, "/oauth/2.0/token", &params, RequestBody::Empty)
}

/// The query parameters of a refresh-token exchange.
pub open spec fn spec_oauth_refresh_params(
    refresh_token: Seq<char>,
    client_id: Seq<char>,
    client_secret: Seq<char>,
) -> Seq<(Seq<char>, Seq<char>)> {
    seq![
        ("grant_type"@, "refresh_token"@),
        ("refresh_token"@, refresh_token),
        ("client_id"@, client_id),
        ("client_secret"@, client_secret),
        ("openapi"@, "xpansdk"@),
    ]
}

/// Describes the refresh-token exchange. Fails exactly when the fixed
/// authentication URL does not parse (it does at runtime).
pub fn oauth_token_refresh_request(
    refresh_token: &str,
    client_id: &str,
    client_secret: &str,
) -> (r: Result<ApiRequest, Error>)
    ensures
        r is Ok <==> query_ready_url_of("https://openapi.baidu.com"@ + "/oauth/2.0/token"@) is Some,
        r matches Ok(req) ==> {
            &&& req.method == HttpMethod::Get
            &&& req.url@ == spec_api_url(
                "https://openapi.baidu.com"@ + "/oauth/2.0/token"@,
                spec_oauth_refresh_params(refresh_token@, client_id@, client_secret@),
            )
            &&& req.body is Empty
        },
        r matches Err(e) ==> e matches Error::UrlParseError(_),
{
    let mut params: Vec<(String, String)> = Vec::new();
    push_pair(&mut params, "grant_type", s_to_string("refresh_token"));
    push_pair(&mut params, "refresh_token", s_to_string(refresh_token));
    push_pair(&mut params, "client_id", s_to_string(client_id));
    push_pair(&mut params, "client_secret", s_to_string(client_secret));
    push_pair(&mut params, "openapi", s_to_string("xpansdk"));
    proof {
        assert(params.deep_view() =~= spec_oauth_refresh_params(
            refresh_token@,
            client_id@,
            client_secret@,
        ));
    }
    let base = s_to_string("https://openapi.baidu.com");
    assemble(HttpMethod::Get, &base, "/oauth/2.0/token", &params, RequestBody::Empty)
}

} // verus!

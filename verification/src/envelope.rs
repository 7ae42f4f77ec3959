//! The authenticated JSON request envelope shared by all control-plane
//! calls: fixed headers and query pairs, and the interpretation of each
//! response — HTTP status mapping, the in-body `code`/`msg` business error,
//! and the decoding of the typed bodies from the parsed document tree.
//!
//! The HTTP exchange itself happens outside the library; a driver builds
//! the request from `default_headers`/`fixed_query`/`api_url`, performs it,
//! and hands the status and body text back to `interpret_sort_response` or
//! `interpret_down_response`. Those two say exactly what every answer
//! becomes: each non-2xx status maps to its error, a 2xx body that does
//! not parse or carries a non-zero `code` fails with the stated message,
//! and a 2xx body matching the schema is owed the decoded value.

use vstd::prelude::*;
use vstd::string::StringExecFns;
use crate::decimal::{dec_seq, u64_to_string};
use crate::error::WebDavError;
use crate::json::{field_node, parse_json, parse_of, spec_field, JsonNode};
use crate::types::{DownData, DownResp, List, Resp, SortData, SortMetadata, SortResp};

verus! {

/// Base URL of the remote control plane.
pub open spec fn spec_api_base() -> Seq<char> {
    "https://drive-pc.quark.cn/1/clouddrive"@
}

/// The full URL of a control-plane endpoint.
pub fn api_url(suffix: &str) -> (r: String)
    ensures
        r@ == spec_api_base() + suffix@,
{
    let mut s = String::from_str("https://drive-pc.quark.cn/1/clouddrive");
    s.append(suffix);
    s
}

/// The desktop-browser user agent sent with every request.
pub open spec fn spec_user_agent() -> Seq<char> {
    "Mozilla/5.0 (Windows NT 10.0; Win64; x64) AppleWebKit/537.36 (KHTML, like Gecko) Chrome/120.0.0.0 Safari/537.36"@
}

/// The fixed headers of every control-plane and data-plane request. Fails
/// without issuing anything when the session credential is empty.
pub fn default_headers(cookie: &str) -> (r: Result<Vec<(String, String)>, WebDavError>)
    ensures
        cookie@.len() == 0 ==> (r matches Err(e) && e matches WebDavError::InvalidInput(m) && m@
            == "cookie empty"@),
        cookie@.len() > 0 ==> (r matches Ok(v) && {
            &&& v@.len() == 4
            &&& v@[0].0@ == "Cookie"@ && v@[0].1@ == cookie@
            &&& v@[1].0@ == "Accept"@ && v@[1].1@ == "application/json, text/plain, */*"@
            &&& v@[2].0@ == "Referer"@ && v@[2].1@ == "https://pan.quark.cn/"@
            &&& v@[3].0@ == "User-Agent"@ && v@[3].1@ == spec_user_agent()
        }),
{
    if cookie.is_empty() {
        return Err(WebDavError::InvalidInput(String::from_str("cookie empty")));
    }
    let mut v: Vec<(String, String)> = Vec::new();
    v.push((String::from_str("Cookie"), String::from_str(cookie)));
    v.push(
        (String::from_str("Accept"), String::from_str("application/json, text/plain, */*")),
    );
    v.push((String::from_str("Referer"), String::from_str("https://pan.quark.cn/")));
    v.push(
        (
            String::from_str("User-Agent"),
            String::from_str(
                "Mozilla/5.0 (Windows NT 10.0; Win64; x64) AppleWebKit/537.36 (KHTML, like Gecko) Chrome/120.0.0.0 Safari/537.36",
            ),
        ),
    );
    Ok(v)
}

/// The fixed query pair carried by every control-plane request.
pub fn fixed_query() -> (q: Vec<(String, String)>)
    ensures
        q@.len() == 2,
        q@[0].0@ == "pr"@ && q@[0].1@ == "ucpro"@,
        q@[1].0@ == "fr"@ && q@[1].1@ == "pc"@,
{
    let mut q: Vec<(String, String)> = Vec::new();
    q.push((String::from_str("pr"), String::from_str("ucpro")));
    q.push((String::from_str("fr"), String::from_str("pc")));
    q
}

/// The query of one page of the listing endpoint.
pub fn sort_query(fid: &str, page: u64, size: u64) -> (q: Vec<(String, String)>)
    ensures
        q@.len() == 5,
        q@[0].0@ == "_fetch_total"@ && q@[0].1@ == "1"@,
        q@[1].0@ == "pdir_fid"@ && q@[1].1@ == fid@,
        q@[2].0@ == "_sort"@ && q@[2].1@ == "file_type:asc,updated_at:desc"@,
        q@[3].0@ == "_page"@ && q@[3].1@ == dec_seq(page as int),
        q@[4].0@ == "_size"@ && q@[4].1@ == dec_seq(size as int),
{
    let mut q: Vec<(String, String)> = Vec::new();
    q.push((String::from_str("_fetch_total"), String::from_str("1")));
    q.push((String::from_str("pdir_fid"), String::from_str(fid)));
    q.push((String::from_str("_sort"), String::from_str("file_type:asc,updated_at:desc")));
    q.push((String::from_str("_page"), u64_to_string(page)));
    q.push((String::from_str("_size"), u64_to_string(size)));
    q
}

/// The JSON body of the download endpoint: one file identifier.
pub fn download_body(fid: &str) -> (s: String)
    ensures
        s@ == "{\"fids\":[\""@ + fid@ + "\"]}"@,
{
    let mut s = String::from_str("{\"fids\":[\"");
    s.append(fid);
    s.append("\"]}");
    s
}

/// The error a non-2xx control-plane answer maps to.
pub fn interpret_failure(path: &str, status: u16, body: &str) -> (e: WebDavError)
    ensures
        status == 404 ==> (e matches WebDavError::NotFound(p) && p@ == path@),
        status == 403 ==> (e matches WebDavError::PermissionDenied(p) && p@ == path@),
        status == 401 ==> (e matches WebDavError::InvalidInput(m) && m@ == "auth failed"@),
        status != 404 && status != 403 && status != 401 ==> (e matches WebDavError::Internal(m)
            && m@ == "request failed: "@ + dec_seq(status as int) + " - "@ + body@),
{
    if status == 404 {
        WebDavError::NotFound(String::from_str(path))
    } else if status == 403 {
        WebDavError::PermissionDenied(String::from_str(path))
    } else if status == 401 {
        WebDavError::InvalidInput(String::from_str("auth failed"))
    } else {
        let mut m = String::from_str("request failed: ");
        let num = u64_to_string(status as u64);
        m.append(num.as_str());
        m.append(" - ");
        m.append(body);
        WebDavError::Internal(m)
    }
}

/// The views of an optional message string.
pub open spec fn opt_view(s: Option<String>) -> Option<Seq<char>> {
    match s {
        Some(x) => Some(x@),
        None => None,
    }
}

/// The message of a business-level failure: the remote `msg` field, or a
/// placeholder when it is absent.
pub open spec fn api_error_text(msg: Option<Seq<char>>) -> Seq<char> {
    match msg {
        Some(m) => "API error: "@ + m,
        None => "API error: "@ + "unknown error"@,
    }
}

/// Interprets the `code`/`msg` envelope of a 2xx answer: any present,
/// non-zero `code` is a business-level failure and the typed body is never
/// decoded.
pub fn check_envelope_code(code: Option<i64>, msg: Option<String>) -> (r: Result<
    (),
    WebDavError,
>)
    ensures
        match code {
            Some(k) => {
                if k != 0 {
                    (r matches Err(e) && e matches WebDavError::Internal(m) && m@
                        == api_error_text(opt_view(msg)))
                } else {
                    r is Ok
                }
            },
            None => r is Ok,
        },
{
    match code {
        Some(k) => {
            if k != 0 {
                let mut s = String::from_str("API error: ");
                match msg {
                    Some(m) => s.append(m.as_str()),
                    None => s.append("unknown error"),
                }
                Err(WebDavError::Internal(s))
            } else {
                Ok(())
            }
        },
        None => Ok(()),
    }
}

/// The member under a key, when it is an integer.
pub open spec fn spec_field_i64(doc: JsonNode, key: Seq<char>) -> Option<i64> {
    match spec_field(doc, key) {
        Some(JsonNode::Int(i)) => Some(i),
        _ => None,
    }
}

/// The member under a key, when it is an integer in 32-bit range.
pub open spec fn spec_field_i32(doc: JsonNode, key: Seq<char>) -> Option<i32> {
    match spec_field_i64(doc, key) {
        Some(x) => if i32::MIN <= x <= i32::MAX {
            Some(x as i32)
        } else {
            None
        },
        None => None,
    }
}

/// The member under a key, when it is a string.
pub open spec fn spec_field_text(doc: JsonNode, key: Seq<char>) -> Option<String> {
    match spec_field(doc, key) {
        Some(JsonNode::Text(t)) => Some(t),
        _ => None,
    }
}

/// The member under a key, when it is a boolean.
pub open spec fn spec_field_bool(doc: JsonNode, key: Seq<char>) -> Option<bool> {
    match spec_field(doc, key) {
        Some(JsonNode::Bool(b)) => Some(b),
        _ => None,
    }
}

/// The member under a key, when it is an array.
pub open spec fn spec_field_array(doc: JsonNode, key: Seq<char>) -> Option<Seq<JsonNode>> {
    match spec_field(doc, key) {
        Some(JsonNode::Array(items)) => Some(items@),
        _ => None,
    }
}

fn field_i64(doc: &JsonNode, key: &str) -> (r: Option<i64>)
    ensures
        r == spec_field_i64(*doc, key@),
{
    match field_node(doc, key) {
        Some(JsonNode::Int(i)) => Some(*i),
        _ => None,
    }
}

fn field_i32(doc: &JsonNode, key: &str) -> (r: Option<i32>)
    ensures
        r == spec_field_i32(*doc, key@),
{
    match field_i64(doc, key) {
        Some(x) => {
            if i32::MIN as i64 <= x && x <= i32::MAX as i64 {
                Some(x as i32)
            } else {
                None
            }
        },
        None => None,
    }
}

fn field_text(doc: &JsonNode, key: &str) -> (r: Option<String>)
    ensures
        r == spec_field_text(*doc, key@),
{
    match field_node(doc, key) {
        Some(JsonNode::Text(t)) => Some(t.clone()),
        _ => None,
    }
}

fn field_bool(doc: &JsonNode, key: &str) -> (r: Option<bool>)
    ensures
        r == spec_field_bool(*doc, key@),
{
    match field_node(doc, key) {
        Some(JsonNode::Bool(b)) => Some(*b),
        _ => None,
    }
}

fn field_array<'a>(doc: &'a JsonNode, key: &str) -> (r: Option<&'a Vec<JsonNode>>)
    ensures
        match r {
            Some(a) => spec_field_array(*doc, key@) == Some(a@),
            None => spec_field_array(*doc, key@) is None,
        },
{
    match field_node(doc, key) {
        Some(JsonNode::Array(items)) => Some(items),
        _ => None,
    }
}

/// The top-level integer `code` of a parsed 2xx answer.
pub open spec fn spec_code(doc: JsonNode) -> Option<i64> {
    spec_field_i64(doc, "code"@)
}

/// The top-level string `msg` of a parsed 2xx answer.
pub open spec fn spec_msg(doc: JsonNode) -> Option<String> {
    spec_field_text(doc, "msg"@)
}

/// Whether the envelope reports a business-level failure.
pub open spec fn envelope_rejects(doc: JsonNode) -> bool {
    spec_code(doc) matches Some(k) && k != 0
}

/// Parses a 2xx body and checks its envelope: the document comes back
/// exactly when the text is JSON and carries no non-zero `code`.
pub fn parse_envelope(body: &str) -> (r: Result<JsonNode, WebDavError>)
    ensures
        parse_of(body@) is None ==> (r matches Err(e) && e matches WebDavError::Internal(m) && m@
            == "failed to parse response body"@),
        parse_of(body@) matches Some(doc) ==> {
            &&& envelope_rejects(doc) ==> (r matches Err(e) && e matches WebDavError::Internal(m)
                && m@ == api_error_text(opt_view(spec_msg(doc))))
            &&& !envelope_rejects(doc) ==> (r matches Ok(d) && d == doc)
        },
{
    match parse_json(body) {
        None => Err(WebDavError::Internal(String::from_str("failed to parse response body"))),
        Some(doc) => {
            let code = field_i64(&doc, "code");
            let msg = field_text(&doc, "msg");
            match check_envelope_code(code, msg) {
                Ok(()) => Ok(doc),
                Err(e) => Err(e),
            }
        },
    }
}

/// The shared envelope fields of a typed body, when all three are present.
pub open spec fn spec_resp_part(doc: JsonNode) -> Option<Resp> {
    match (spec_field_i32(doc, "status"@), spec_field_i32(doc, "code"@), spec_field_text(
        doc,
        "message"@,
    )) {
        (Some(status), Some(code), Some(message)) => Some(Resp { status, code, message }),
        _ => None,
    }
}

/// One listing entry, when its required fields are present with their
/// types; the optional millisecond timestamp is kept only when it is an
/// integer.
pub open spec fn spec_entry(n: JsonNode) -> Option<List> {
    match (spec_field_text(n, "fid"@), spec_field_text(n, "file_name"@), spec_field_i64(
        n,
        "size"@,
    ), spec_field_bool(n, "file"@), spec_field_i64(n, "updated_at"@), spec_field_i64(
        n,
        "created_at"@,
    )) {
        (
            Some(fid),
            Some(file_name),
            Some(size),
            Some(file),
            Some(updated_at),
            Some(created_at),
        ) => Some(
            List {
                fid,
                file_name,
                size,
                file,
                l_updated_at: spec_field_i64(n, "l_updated_at"@),
                updated_at,
                created_at,
            },
        ),
        _ => None,
    }
}

/// The decoded entries of a page's array, when every element decodes.
pub open spec fn spec_entries(items: Seq<JsonNode>) -> Option<Seq<List>>
    decreases items.len(),
{
    if items.len() == 0 {
        Some(Seq::empty())
    } else {
        match (spec_entries(items.drop_last()), spec_entry(items.last())) {
            (Some(rest), Some(e)) => Some(rest.push(e)),
            _ => None,
        }
    }
}

/// The pagination counters, when the required fields are present.
pub open spec fn spec_sort_metadata(doc: JsonNode) -> Option<SortMetadata> {
    match (spec_field_i32(doc, "_size"@), spec_field_i32(doc, "_page"@), spec_field_i32(
        doc,
        "_count"@,
    ), spec_field_i32(doc, "_total"@)) {
        (Some(size), Some(page), Some(count), Some(total)) => Some(
            SortMetadata { size, page, count, total, way: spec_field_text(doc, "way"@) },
        ),
        _ => None,
    }
}

/// The entry nodes of a listing page: `data.list`, when it is an array.
pub open spec fn spec_sort_items(doc: JsonNode) -> Option<Seq<JsonNode>> {
    match spec_field(doc, "data"@) {
        Some(data) => spec_field_array(data, "list"@),
        None => None,
    }
}

/// Whether a checked 2xx document carries a whole listing page.
pub open spec fn sort_schema_ok(doc: JsonNode) -> bool {
    &&& spec_resp_part(doc) is Some
    &&& (spec_sort_items(doc) matches Some(items) && spec_entries(items) is Some)
    &&& (spec_field(doc, "metadata"@) matches Some(meta) && spec_sort_metadata(meta) is Some)
}

/// How a decoded listing page relates to the document it came from.
pub open spec fn sort_resp_matches(doc: JsonNode, r: SortResp) -> bool {
    &&& Some(r.resp) == spec_resp_part(doc)
    &&& (spec_sort_items(doc) matches Some(items) && Some(r.data.list@) == spec_entries(items))
    &&& (spec_field(doc, "metadata"@) matches Some(meta) && Some(r.metadata)
        == spec_sort_metadata(meta))
}

/// One object of the download endpoint's answer, when its fields are
/// present with their types.
pub open spec fn spec_down_entry(n: JsonNode) -> Option<DownData> {
    match (spec_field_text(n, "download_url"@), spec_field_i64(n, "range_size"@), spec_field_i64(
        n,
        "size"@,
    )) {
        (Some(download_url), Some(range_size), Some(size)) => Some(
            DownData { download_url, range_size, size },
        ),
        _ => None,
    }
}

/// The decoded objects of the download answer's array.
pub open spec fn spec_down_entries(items: Seq<JsonNode>) -> Option<Seq<DownData>>
    decreases items.len(),
{
    if items.len() == 0 {
        Some(Seq::empty())
    } else {
        match (spec_down_entries(items.drop_last()), spec_down_entry(items.last())) {
            (Some(rest), Some(e)) => Some(rest.push(e)),
            _ => None,
        }
    }
}

/// Whether a checked 2xx document carries a whole download answer.
pub open spec fn down_schema_ok(doc: JsonNode) -> bool {
    &&& spec_resp_part(doc) is Some
    &&& (spec_field_array(doc, "data"@) matches Some(items) && spec_down_entries(items) is Some)
}

/// How a decoded download answer relates to the document it came from.
pub open spec fn down_resp_matches(doc: JsonNode, r: DownResp) -> bool {
    &&& Some(r.resp) == spec_resp_part(doc)
    &&& (spec_field_array(doc, "data"@) matches Some(items) && Some(r.data@) == spec_down_entries(
        items,
    ))
}

/// The decoding failure all malformed 2xx bodies collapse into.
fn decode_error() -> (e: WebDavError)
    ensures
        e matches WebDavError::Internal(m) && m@ == "failed to decode response body"@,
{
    WebDavError::Internal(String::from_str("failed to decode response body"))
}

fn decode_resp(doc: &JsonNode) -> (r: Option<Resp>)
    ensures
        r == spec_resp_part(*doc),
{
    let status = match field_i32(doc, "status") {
        Some(x) => x,
        None => {
            return None;
        },
    };
    let code = match field_i32(doc, "code") {
        Some(x) => x,
        None => {
            return None;
        },
    };
    let message = match field_text(doc, "message") {
        Some(x) => x,
        None => {
            return None;
        },
    };
    Some(Resp { status, code, message })
}

fn decode_list_entry(n: &JsonNode) -> (r: Option<List>)
    ensures
        r == spec_entry(*n),
{
    let fid = match field_text(n, "fid") {
        Some(x) => x,
        None => {
            return None;
        },
    };
    let file_name = match field_text(n, "file_name") {
        Some(x) => x,
        None => {
            return None;
        },
    };
    let size = match field_i64(n, "size") {
        Some(x) => x,
        None => {
            return None;
        },
    };
    let file = match field_bool(n, "file") {
        Some(x) => x,
        None => {
            return None;
        },
    };
    let l_updated_at = field_i64(n, "l_updated_at");
    let updated_at = match field_i64(n, "updated_at") {
        Some(x) => x,
        None => {
            return None;
        },
    };
    let created_at = match field_i64(n, "created_at") {
        Some(x) => x,
        None => {
            return None;
        },
    };
    Some(List { fid, file_name, size, file, l_updated_at, updated_at, created_at })
}

/// An element that does not decode spoils the whole array.
proof fn lemma_entries_none(items: Seq<JsonNode>, i: int)
    requires
        0 <= i < items.len(),
        spec_entry(items[i]) is None,
    ensures
        spec_entries(items) is None,
    decreases items.len(),
{
    if i < items.len() - 1 {
        assert(items.drop_last()[i] == items[i]);
        lemma_entries_none(items.drop_last(), i);
    }
}

fn decode_entries(items: &Vec<JsonNode>) -> (r: Option<Vec<List>>)
    ensures
        match r {
            Some(v) => spec_entries(items@) == Some(v@),
            None => spec_entries(items@) is None,
        },
{
    let mut out: Vec<List> = Vec::new();
    let n = items.len();
    let mut i: usize = 0;
    proof {
        assert(items@.take(0) =~= Seq::<JsonNode>::empty());
        assert(out@ =~= Seq::<List>::empty());
    }
    while i < n
        invariant
            i <= n,
            n == items@.len(),
            spec_entries(items@.take(i as int)) == Some(out@),
        decreases n - i,
    {
        proof {
            assert(items@.take(i + 1).drop_last() =~= items@.take(i as int));
            assert(items@.take(i + 1).last() == items@[i as int]);
        }
        match decode_list_entry(&items[i]) {
            Some(e) => out.push(e),
            None => {
                proof {
                    lemma_entries_none(items@, i as int);
                }
                return None;
            },
        }
        i = i + 1;
    }
    proof {
        assert(items@.take(n as int) =~= items@);
    }
    Some(out)
}

fn decode_sort_metadata(doc: &JsonNode) -> (r: Option<SortMetadata>)
    ensures
        r == spec_sort_metadata(*doc),
{
    let size = match field_i32(doc, "_size") {
        Some(x) => x,
        None => {
            return None;
        },
    };
    let page = match field_i32(doc, "_page") {
        Some(x) => x,
        None => {
            return None;
        },
    };
    let count = match field_i32(doc, "_count") {
        Some(x) => x,
        None => {
            return None;
        },
    };
    let total = match field_i32(doc, "_total") {
        Some(x) => x,
        None => {
            return None;
        },
    };
    let way = field_text(doc, "way");
    Some(SortMetadata { size, page, count, total, way })
}

/// Decodes one page of the listing endpoint from a checked document: the
/// page exactly as the document carries it, or the decoding failure when
/// the schema does not fit.
pub fn decode_sort_resp(doc: &JsonNode) -> (r: Result<SortResp, WebDavError>)
    ensures
        !sort_schema_ok(*doc) ==> (r matches Err(e) && e matches WebDavError::Internal(m) && m@
            == "failed to decode response body"@),
        sort_schema_ok(*doc) ==> (r matches Ok(sr) && sort_resp_matches(*doc, sr)),
{
    let resp = match decode_resp(doc) {
        Some(x) => x,
        None => {
            return Err(decode_error());
        },
    };
    let data_v = match field_node(doc, "data") {
        Some(x) => x,
        None => {
            return Err(decode_error());
        },
    };
    let arr = match field_array(data_v, "list") {
        Some(a) => a,
        None => {
            return Err(decode_error());
        },
    };
    let list = match decode_entries(arr) {
        Some(v) => v,
        None => {
            return Err(decode_error());
        },
    };
    let metadata_v = match field_node(doc, "metadata") {
        Some(x) => x,
        None => {
            return Err(decode_error());
        },
    };
    let metadata = match decode_sort_metadata(metadata_v) {
        Some(x) => x,
        None => {
            return Err(decode_error());
        },
    };
    Ok(SortResp { resp, data: SortData { list }, metadata })
}

fn decode_down_data(n: &JsonNode) -> (r: Option<DownData>)
    ensures
        r == spec_down_entry(*n),
{
    let download_url = match field_text(n, "download_url") {
        Some(x) => x,
        None => {
            return None;
        },
    };
    let range_size = match field_i64(n, "range_size") {
        Some(x) => x,
        None => {
            return None;
        },
    };
    let size = match field_i64(n, "size") {
        Some(x) => x,
        None => {
            return None;
        },
    };
    Some(DownData { download_url, range_size, size })
}

/// An object that does not decode spoils the whole array.
proof fn lemma_down_entries_none(items: Seq<JsonNode>, i: int)
    requires
        0 <= i < items.len(),
        spec_down_entry(items[i]) is None,
    ensures
        spec_down_entries(items) is None,
    decreases items.len(),
{
    if i < items.len() - 1 {
        assert(items.drop_last()[i] == items[i]);
        lemma_down_entries_none(items.drop_last(), i);
    }
}

fn decode_down_entries(items: &Vec<JsonNode>) -> (r: Option<Vec<DownData>>)
    ensures
        match r {
            Some(v) => spec_down_entries(items@) == Some(v@),
            None => spec_down_entries(items@) is None,
        },
{
    let mut out: Vec<DownData> = Vec::new();
    let n = items.len();
    let mut i: usize = 0;
    proof {
        assert(items@.take(0) =~= Seq::<JsonNode>::empty());
        assert(out@ =~= Seq::<DownData>::empty());
    }
    while i < n
        invariant
            i <= n,
            n == items@.len(),
            spec_down_entries(items@.take(i as int)) == Some(out@),
        decreases n - i,
    {
        proof {
            assert(items@.take(i + 1).drop_last() =~= items@.take(i as int));
            assert(items@.take(i + 1).last() == items@[i as int]);
        }
        match decode_down_data(&items[i]) {
            Some(e) => out.push(e),
            None => {
                proof {
                    lemma_down_entries_none(items@, i as int);
                }
                return None;
            },
        }
        i = i + 1;
    }
    proof {
        assert(items@.take(n as int) =~= items@);
    }
    Some(out)
}

/// Decodes the download endpoint's answer from a checked document, as
/// `decode_sort_resp` does for listing pages.
pub fn decode_down_resp(doc: &JsonNode) -> (r: Result<DownResp, WebDavError>)
    ensures
        !down_schema_ok(*doc) ==> (r matches Err(e) && e matches WebDavError::Internal(m) && m@
            == "failed to decode response body"@),
        down_schema_ok(*doc) ==> (r matches Ok(dr) && down_resp_matches(*doc, dr)),
{
    let resp = match decode_resp(doc) {
        Some(x) => x,
        None => {
            return Err(decode_error());
        },
    };
    let arr = match field_array(doc, "data") {
        Some(a) => a,
        None => {
            return Err(decode_error());
        },
    };
    let data = match decode_down_entries(arr) {
        Some(v) => v,
        None => {
            return Err(decode_error());
        },
    };
    Ok(DownResp { resp, data })
}

/// Whether an HTTP status is a success.
pub open spec fn spec_is_success(status: u16) -> bool {
    200 <= status < 300
}

/// Interprets one exchange against the listing endpoint. A non-2xx status
/// maps to the envelope's error taxonomy; a 2xx body is owed the decoded
/// page exactly when it parses, carries no non-zero `code`, and fits the
/// page schema, and otherwise fails with the stated message.
pub fn interpret_sort_response(path: &str, status: u16, body: &str) -> (r: Result<
    SortResp,
    WebDavError,
>)
    ensures
        !spec_is_success(status) && status == 404 ==> (r matches Err(e) && e
            matches WebDavError::NotFound(p) && p@ == path@),
        !spec_is_success(status) && status == 403 ==> (r matches Err(e) && e
            matches WebDavError::PermissionDenied(p) && p@ == path@),
        !spec_is_success(status) && status == 401 ==> (r matches Err(e) && e
            matches WebDavError::InvalidInput(m) && m@ == "auth failed"@),
        !spec_is_success(status) && status != 404 && status != 403 && status != 401 ==> (r
            matches Err(e) && e matches WebDavError::Internal(m) && m@ == "request failed: "@
            + dec_seq(status as int) + " - "@ + body@),
        spec_is_success(status) && parse_of(body@) is None ==> (r matches Err(e) && e
            matches WebDavError::Internal(m) && m@ == "failed to parse response body"@),
        spec_is_success(status) ==> (parse_of(body@) matches Some(doc) ==> {
            &&& envelope_rejects(doc) ==> (r matches Err(e) && e matches WebDavError::Internal(m)
                && m@ == api_error_text(opt_view(spec_msg(doc))))
            &&& !envelope_rejects(doc) && sort_schema_ok(doc) ==> (r matches Ok(sr)
                && sort_resp_matches(doc, sr))
            &&& !envelope_rejects(doc) && !sort_schema_ok(doc) ==> (r matches Err(e) && e
                matches WebDavError::Internal(m) && m@ == "failed to decode response body"@)
        }),
{
    if !(200 <= status && status < 300) {
        return Err(interpret_failure(path, status, body));
    }
    let doc = match parse_envelope(body) {
        Ok(v) => v,
        Err(e) => {
            return Err(e);
        },
    };
    decode_sort_resp(&doc)
}

/// Interprets one exchange against the download endpoint, as
/// `interpret_sort_response` does for the listing endpoint.
pub fn interpret_down_response(path: &str, status: u16, body: &str) -> (r: Result<
    DownResp,
    WebDavError,
>)
    ensures
        !spec_is_success(status) && status == 404 ==> (r matches Err(e) && e
            matches WebDavError::NotFound(p) && p@ == path@),
        !spec_is_success(status) && status == 403 ==> (r matches Err(e) && e
            matches WebDavError::PermissionDenied(p) && p@ == path@),
        !spec_is_success(status) && status == 401 ==> (r matches Err(e) && e
            matches WebDavError::InvalidInput(m) && m@ == "auth failed"@),
        !spec_is_success(status) && status != 404 && status != 403 && status != 401 ==> (r
            matches Err(e) && e matches WebDavError::Internal(m) && m@ == "request failed: "@
            + dec_seq(status as int) + " - "@ + body@),
        spec_is_success(status) && parse_of(body@) is None ==> (r matches Err(e) && e
            matches WebDavError::Internal(m) && m@ == "failed to parse response body"@),
        spec_is_success(status) ==> (parse_of(body@) matches Some(doc) ==> {
            &&& envelope_rejects(doc) ==> (r matches Err(e) && e matches WebDavError::Internal(m)
                && m@ == api_error_text(opt_view(spec_msg(doc))))
            &&& !envelope_rejects(doc) && down_schema_ok(doc) ==> (r matches Ok(dr)
                && down_resp_matches(doc, dr))
            &&& !envelope_rejects(doc) && !down_schema_ok(doc) ==> (r matches Err(e) && e
                matches WebDavError::Internal(m) && m@ == "failed to decode response body"@)
        }),
{
    if !(200 <= status && status < 300) {
        return Err(interpret_failure(path, status, body));
    }
    let doc = match parse_envelope(body) {
        Ok(v) => v,
        Err(e) => {
            return Err(e);
        },
    };
    decode_down_resp(&doc)
}

} // verus!

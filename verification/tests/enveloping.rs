use webdav_rs::envelope::{
    api_url, check_envelope_code, default_headers, download_body, fixed_query,
    interpret_down_response, interpret_failure, interpret_sort_response, sort_query,
};
use webdav_rs::error::WebDavError;

#[test]
fn url_is_base_plus_suffix() {
    assert_eq!(
        api_url("/file/sort"),
        "https://drive-pc.quark.cn/1/clouddrive/file/sort"
    );
}

#[test]
fn empty_cookie_fails_before_any_request() {
    let err = default_headers("").err().expect("empty cookie refused");
    match err {
        WebDavError::InvalidInput(m) => assert_eq!(m, "cookie empty"),
        other => panic!("unexpected error: {}", other.message()),
    }
}

#[test]
fn headers_carry_the_session() {
    let h = default_headers("q=1; s=2").expect("non-empty cookie accepted");
    assert_eq!(h.len(), 4);
    assert_eq!(h[0], ("Cookie".to_string(), "q=1; s=2".to_string()));
    assert_eq!(
        h[1],
        ("Accept".to_string(), "application/json, text/plain, */*".to_string())
    );
    assert_eq!(h[2], ("Referer".to_string(), "https://pan.quark.cn/".to_string()));
    assert_eq!(h[3].0, "User-Agent");
    assert!(h[3].1.starts_with("Mozilla/5.0 (Windows NT 10.0; Win64; x64)"));
}

#[test]
fn fixed_query_pairs() {
    let q = fixed_query();
    assert_eq!(q.len(), 2);
    assert_eq!(q[0], ("pr".to_string(), "ucpro".to_string()));
    assert_eq!(q[1], ("fr".to_string(), "pc".to_string()));
}

#[test]
fn sort_query_pairs() {
    let q = sort_query("FID", 3, 100);
    assert_eq!(q[0], ("_fetch_total".to_string(), "1".to_string()));
    assert_eq!(q[1], ("pdir_fid".to_string(), "FID".to_string()));
    assert_eq!(
        q[2],
        ("_sort".to_string(), "file_type:asc,updated_at:desc".to_string())
    );
    assert_eq!(q[3], ("_page".to_string(), "3".to_string()));
    assert_eq!(q[4], ("_size".to_string(), "100".to_string()));
}

#[test]
fn download_body_names_one_fid() {
    assert_eq!(download_body("abc123"), "{\"fids\":[\"abc123\"]}");
}

#[test]
fn status_mapping() {
    match interpret_failure("/p", 404, "") {
        WebDavError::NotFound(p) => assert_eq!(p, "/p"),
        other => panic!("unexpected: {}", other.message()),
    }
    match interpret_failure("/p", 403, "") {
        WebDavError::PermissionDenied(p) => assert_eq!(p, "/p"),
        other => panic!("unexpected: {}", other.message()),
    }
    match interpret_failure("/p", 401, "") {
        WebDavError::InvalidInput(m) => assert_eq!(m, "auth failed"),
        other => panic!("unexpected: {}", other.message()),
    }
    match interpret_failure("/p", 503, "oops") {
        WebDavError::Internal(m) => assert_eq!(m, "request failed: 503 - oops"),
        other => panic!("unexpected: {}", other.message()),
    }
}

#[test]
fn business_error_in_200_is_internal() {
    let err = interpret_sort_response("/foo", 200, "{\"code\":41001,\"msg\":\"need login\"}")
        .err()
        .expect("non-zero code fails");
    match err {
        WebDavError::Internal(m) => {
            assert!(m.contains("need login"));
            assert_eq!(m, "API error: need login");
        }
        other => panic!("unexpected: {}", other.message()),
    }
}

#[test]
fn business_error_without_msg() {
    let r = check_envelope_code(Some(7), None);
    match r.err().expect("non-zero code fails") {
        WebDavError::Internal(m) => assert_eq!(m, "API error: unknown error"),
        other => panic!("unexpected: {}", other.message()),
    }
    assert!(check_envelope_code(Some(0), None).is_ok());
    assert!(check_envelope_code(None, Some("msg".to_string())).is_ok());
}

#[test]
fn unparseable_success_body_is_internal() {
    let err = interpret_sort_response("/foo", 200, "not json").err().expect("must fail");
    match err {
        WebDavError::Internal(m) => assert_eq!(m, "failed to parse response body"),
        other => panic!("unexpected: {}", other.message()),
    }
}

#[test]
fn sort_response_decodes() {
    let body = "{\"status\":200,\"code\":0,\"message\":\"ok\",\"data\":{\"list\":[{\"fid\":\"abc\",\"file_name\":\"a.txt\",\"size\":5,\"file\":true,\"updated_at\":1700000000000,\"created_at\":1600000000000},{\"fid\":\"def\",\"file_name\":\"sub\",\"size\":0,\"file\":false,\"l_updated_at\":42,\"updated_at\":0,\"created_at\":0}]},\"metadata\":{\"_size\":100,\"_page\":1,\"_count\":2,\"_total\":2,\"way\":\"x\"}}";
    let resp = interpret_sort_response("/foo", 200, body).expect("well-formed page decodes");
    assert_eq!(resp.resp.status, 200);
    assert_eq!(resp.resp.code, 0);
    assert_eq!(resp.resp.message, "ok");
    assert_eq!(resp.metadata.total, 2);
    assert_eq!(resp.metadata.way.as_deref(), Some("x"));
    assert_eq!(resp.data.list.len(), 2);
    assert_eq!(resp.data.list[0].fid, "abc");
    assert_eq!(resp.data.list[0].file_name, "a.txt");
    assert_eq!(resp.data.list[0].size, 5);
    assert!(resp.data.list[0].file);
    assert_eq!(resp.data.list[0].l_updated_at, None);
    assert_eq!(resp.data.list[1].l_updated_at, Some(42));
    assert!(!resp.data.list[1].file);
}

#[test]
fn sort_response_with_missing_field_is_refused() {
    // no file_name on the entry
    let body = "{\"status\":200,\"code\":0,\"message\":\"ok\",\"data\":{\"list\":[{\"fid\":\"abc\",\"size\":5,\"file\":true,\"updated_at\":0,\"created_at\":0}]},\"metadata\":{\"_size\":100,\"_page\":1,\"_count\":1,\"_total\":1}}";
    let err = interpret_sort_response("/foo", 200, body).err().expect("must fail");
    match err {
        WebDavError::Internal(m) => assert_eq!(m, "failed to decode response body"),
        other => panic!("unexpected: {}", other.message()),
    }
}

#[test]
fn down_response_decodes() {
    let body = "{\"status\":200,\"code\":0,\"message\":\"ok\",\"data\":[{\"download_url\":\"https://cdn.example.invalid/s\",\"range_size\":131072,\"size\":300000}]}";
    let resp = interpret_down_response("/x", 200, body).expect("download answer decodes");
    assert_eq!(resp.data.len(), 1);
    assert_eq!(resp.data[0].download_url, "https://cdn.example.invalid/s");
    assert_eq!(resp.data[0].range_size, 131_072);
    assert_eq!(resp.data[0].size, 300_000);
}

#[test]
fn down_response_maps_failures_too() {
    let err = interpret_down_response("/x", 404, "").err().expect("404 fails");
    assert!(matches!(err, WebDavError::NotFound(_)));
    let err = interpret_down_response("/x", 200, "{\"code\":1,\"msg\":\"m\"}")
        .err()
        .expect("business error fails");
    assert!(matches!(err, WebDavError::Internal(_)));
}

#[test]
fn float_code_is_no_business_code_but_spoils_the_schema() {
    // a non-integer `code` is not a business error, yet the typed body
    // requires an integer `code`, so decoding is refused
    let body = "{\"status\":200,\"code\":0.5,\"message\":\"ok\",\"data\":{\"list\":[]},\"metadata\":{\"_size\":100,\"_page\":1,\"_count\":0,\"_total\":0}}";
    let err = interpret_sort_response("/foo", 200, body).err().expect("must fail");
    match err {
        WebDavError::Internal(m) => assert_eq!(m, "failed to decode response body"),
        other => panic!("unexpected: {}", other.message()),
    }
}

#[test]
fn float_entry_size_is_refused() {
    let body = "{\"status\":200,\"code\":0,\"message\":\"ok\",\"data\":{\"list\":[{\"fid\":\"a\",\"file_name\":\"n\",\"size\":1.5,\"file\":true,\"updated_at\":0,\"created_at\":0}]},\"metadata\":{\"_size\":100,\"_page\":1,\"_count\":1,\"_total\":1}}";
    let err = interpret_sort_response("/foo", 200, body).err().expect("must fail");
    match err {
        WebDavError::Internal(m) => assert_eq!(m, "failed to decode response body"),
        other => panic!("unexpected: {}", other.message()),
    }
}

#[test]
fn non_integer_optional_timestamp_is_dropped() {
    let body = "{\"status\":200,\"code\":0,\"message\":\"ok\",\"data\":{\"list\":[{\"fid\":\"a\",\"file_name\":\"n\",\"size\":1,\"file\":true,\"l_updated_at\":\"soon\",\"updated_at\":0,\"created_at\":0}]},\"metadata\":{\"_size\":100,\"_page\":1,\"_count\":1,\"_total\":1}}";
    let resp = interpret_sort_response("/foo", 200, body).expect("page decodes");
    assert_eq!(resp.data.list[0].l_updated_at, None);
}

#[test]
fn out_of_range_counter_is_refused() {
    // the pagination counters are 32-bit; a larger total does not decode
    let body = "{\"status\":200,\"code\":0,\"message\":\"ok\",\"data\":{\"list\":[]},\"metadata\":{\"_size\":100,\"_page\":1,\"_count\":0,\"_total\":5000000000}}";
    let err = interpret_sort_response("/foo", 200, body).err().expect("must fail");
    match err {
        WebDavError::Internal(m) => assert_eq!(m, "failed to decode response body"),
        other => panic!("unexpected: {}", other.message()),
    }
}

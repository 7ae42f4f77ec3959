use webdav_rs::download::{num_chunks, ChunkState, DownloadJob, Downloader, PART_SIZE};
use webdav_rs::error::{DownloadError, WebDavError};
use webdav_rs::quark::{read_file_plan, ReadPlan, QuarkBackend, DOWNLOAD_CONCURRENCY};
use webdav_rs::types::{DownData, DownResp, Resp, ResourceMetadata};

fn job(total: usize) -> DownloadJob {
    DownloadJob {
        url: "https://example.invalid/u".to_string(),
        total_size: total,
        part_size: PART_SIZE,
        concurrency: DOWNLOAD_CONCURRENCY,
        fid: "X".to_string(),
    }
}

#[test]
fn chunk_counts() {
    assert_eq!(num_chunks(0, PART_SIZE), 0);
    assert_eq!(num_chunks(1, PART_SIZE), 1);
    assert_eq!(num_chunks(PART_SIZE, PART_SIZE), 1);
    assert_eq!(num_chunks(PART_SIZE + 1, PART_SIZE), 2);
    assert_eq!(num_chunks(300_000, PART_SIZE), 2);
}

#[test]
fn download_hot_path_reassembles_body() {
    let mut d = Downloader::new(job(300_000));
    let first = d.start_next().expect("first chunk starts");
    assert_eq!(first, 0);
    let second = d.start_next().expect("second chunk starts");
    assert_eq!(second, 1);
    // the concurrency cap of 2 refuses a third in-flight request
    assert!(d.start_next().is_none());
    assert_eq!(d.inflight, 2);

    assert_eq!(d.range_header(0), "bytes=0-262143");
    assert_eq!(d.range_header(1), "bytes=262144-299999");

    let body0 = vec![0xAAu8; 262_144];
    d.apply_response(0, 206, true, &body0).expect("first chunk applies");
    assert!(!d.finished());
    let body1 = vec![0xBBu8; 37_856];
    d.apply_response(1, 206, true, &body1).expect("second chunk applies");
    assert!(d.finished());

    let bytes = d.take_result();
    assert_eq!(bytes.len(), 300_000);
    assert!(bytes[..262_144].iter().all(|b| *b == 0xAA));
    assert!(bytes[262_144..].iter().all(|b| *b == 0xBB));
}

#[test]
fn chunks_finish_in_any_order() {
    let mut d = Downloader::new(job(300_000));
    d.start_next().expect("chunk 0");
    d.start_next().expect("chunk 1");
    let body1 = vec![2u8; 37_856];
    d.apply_response(1, 206, true, &body1).expect("later chunk first");
    // a slot freed under the cap can be reused
    assert_eq!(d.inflight, 1);
    let body0 = vec![1u8; 262_144];
    d.apply_response(0, 206, true, &body0).expect("first chunk second");
    let bytes = d.take_result();
    assert_eq!(bytes.len(), 300_000);
    assert_eq!(bytes[0], 1);
    assert_eq!(bytes[262_144], 2);
    assert_eq!(bytes[299_999], 2);
}

#[test]
fn non_partial_content_is_refused() {
    let mut d = Downloader::new(job(300_000));
    let i = d.start_next().expect("chunk starts");
    let err = d.apply_response(i, 200, true, &vec![0u8; 10]).err().expect("200 is refused");
    match err {
        DownloadError::RangeNotSupported(st) => assert_eq!(st, 200),
        other => panic!("unexpected error: {}", other.message()),
    }
    // the failure maps to an internal error, i.e. HTTP 500 at the handler
    let web = err_to_webdav_status(DownloadError::RangeNotSupported(200));
    assert_eq!(web, 500);
}

fn err_to_webdav_status(e: DownloadError) -> u16 {
    let w: WebDavError = e.to_webdav();
    w.status_code()
}

#[test]
fn missing_content_range_is_refused() {
    let mut d = Downloader::new(job(100));
    let i = d.start_next().expect("chunk starts");
    let err = d.apply_response(i, 206, false, &vec![0u8; 10]).err().expect("no header");
    assert!(matches!(err, DownloadError::MissingContentRange));
    assert_eq!(err.message(), "missing Content-Range header");
}

#[test]
fn oversized_body_is_refused() {
    let mut d = Downloader::new(job(100));
    let i = d.start_next().expect("chunk starts");
    let err = d.apply_response(i, 206, true, &vec![0u8; 101]).err().expect("too big");
    assert!(matches!(err, DownloadError::DataSizeExceeded));
    // the chunk is not marked done by a failed application
    assert!(!d.finished());
    assert_eq!(d.status[i], ChunkState::InFlight);
}

#[test]
fn zero_byte_object_downloads_as_empty() {
    let mut d = Downloader::new(job(0));
    // zero chunks: nothing to start, immediately finished
    assert!(d.start_next().is_none());
    assert!(d.finished());
    let bytes = d.take_result();
    assert_eq!(bytes.len(), 0);
}

#[test]
fn uneven_total_leaves_short_last_chunk() {
    let total = 2 * PART_SIZE + 5;
    let mut d = Downloader::new(job(total));
    assert_eq!(d.status.len(), 3);
    d.start_next().expect("chunk 0");
    d.start_next().expect("chunk 1");
    let full = vec![7u8; PART_SIZE];
    d.apply_response(0, 206, true, &full).expect("chunk 0 applies");
    let full2 = vec![8u8; PART_SIZE];
    d.apply_response(1, 206, true, &full2).expect("chunk 1 applies");
    let i = d.start_next().expect("chunk 2");
    assert_eq!(i, 2);
    assert_eq!(
        d.range_header(2),
        format!("bytes={}-{}", 2 * PART_SIZE, total - 1)
    );
    let short = vec![9u8; 5];
    d.apply_response(2, 206, true, &short).expect("short final chunk applies");
    let bytes = d.take_result();
    assert_eq!(bytes.len(), total);
    assert_eq!(&bytes[total - 5..], &[9, 9, 9, 9, 9]);
}

#[test]
fn read_plan_prefers_disk_cache() {
    let meta = ResourceMetadata {
        path: "/x".to_string(),
        is_dir: false,
        len: 5,
        modified: 0,
        created: None,
        etag: "X".to_string(),
    };
    // a cached body is answered as it is: no request is planned
    match read_file_plan(&meta, Some(vec![1, 2, 3, 4, 5])) {
        ReadPlan::Cached(b) => assert_eq!(b, vec![1, 2, 3, 4, 5]),
        ReadPlan::Fetch(_) => panic!("cache hit must not fetch"),
    }
    match read_file_plan(&meta, None) {
        ReadPlan::Fetch(fid) => assert_eq!(fid, "X"),
        ReadPlan::Cached(_) => panic!("cache miss must fetch"),
    }
}

#[test]
fn resolve_requires_prior_listing() {
    let b = QuarkBackend::new();
    let err = b.read_file_resolve("/x").err().expect("unlisted path fails");
    match err {
        WebDavError::NotFound(p) => assert_eq!(p, "/x"),
        other => panic!("unexpected error: {}", other.message()),
    }
}

#[test]
fn download_job_from_response() {
    let resp = DownResp {
        resp: Resp { status: 200, code: 0, message: String::new() },
        data: vec![DownData {
            download_url: "https://cdn.example.invalid/s".to_string(),
            range_size: 1,
            size: 300_000,
        }],
    };
    let j = DownloadJob::from_response(&resp, "X");
    assert_eq!(j.url, "https://cdn.example.invalid/s");
    assert_eq!(j.total_size, 300_000);
    assert_eq!(j.part_size, 262_144);
    assert_eq!(j.concurrency, 2);
    assert_eq!(j.fid, "X");
}

#[test]
fn write_side_is_not_implemented() {
    let b = QuarkBackend::new();
    for err in [
        b.write_file("/p", &vec![]).err().expect("stub"),
        b.create_dir("/p").err().expect("stub"),
        b.delete("/p").err().expect("stub"),
        b.copy("/p", "/q").err().expect("stub"),
        b.move_resource("/p", "/q").err().expect("stub"),
    ] {
        match err {
            WebDavError::Internal(m) => assert_eq!(m, "not implemented"),
            other => panic!("unexpected error: {}", other.message()),
        }
    }
}

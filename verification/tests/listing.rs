use webdav_rs::cache::{cache_get, cache_insert, cache_new};
use webdav_rs::list::{apply_pages, child_descriptor, list_start, ListStart};
use webdav_rs::types::{List, Resp, ResourceMetadata, SortData, SortMetadata, SortResp};

fn dir_meta(path: &str, fid: &str) -> ResourceMetadata {
    ResourceMetadata {
        path: path.to_string(),
        is_dir: true,
        len: 0,
        modified: 1_700_000_000,
        created: None,
        etag: fid.to_string(),
    }
}

fn entry(name: &str, fid: &str, size: i64, is_file: bool) -> List {
    List {
        fid: fid.to_string(),
        file_name: name.to_string(),
        size,
        file: is_file,
        l_updated_at: None,
        updated_at: 1_700_000_000_000,
        created_at: 1_600_000_000_000,
    }
}

fn page(entries: Vec<List>, page_no: i32, total: i32) -> SortResp {
    SortResp {
        resp: Resp { status: 200, code: 0, message: String::new() },
        data: SortData { list: entries },
        metadata: SortMetadata {
            size: 100,
            page: page_no,
            count: 0,
            total,
            way: None,
        },
    }
}

#[test]
fn empty_root_listing_synthesises_root() {
    let mut cache = cache_new();
    let start = list_start(&cache, "", 4242).expect("root listing starts");
    let mut lister = match start {
        ListStart::Paginate(l) => l,
        ListStart::Done(_) => panic!("root must paginate"),
    };
    assert_eq!(lister.page, 1);
    assert_eq!(lister.dir.path, "/");
    assert_eq!(lister.dir.etag, "0");
    assert!(lister.dir.is_dir);
    assert_eq!(lister.dir.modified, 4242);
    assert!(lister.dir.created.is_none());

    let done = lister.apply_page(&page(vec![], 1, 0), &mut cache, 4242);
    assert!(done);
    let info = lister.finish();
    assert_eq!(info.metadata.etag, "0");
    let children = info.children.expect("root listing returns children");
    assert_eq!(children.len(), 0);
    // the root's own entry is never stored in the cache
    assert!(cache_get(&cache, "/").is_none());
    assert!(cache_get(&cache, "").is_none());
}

#[test]
fn unknown_path_is_not_found() {
    let cache = cache_new();
    let err = list_start(&cache, "/missing", 0).err().expect("must fail");
    match err {
        webdav_rs::error::WebDavError::NotFound(p) => assert_eq!(p, "/missing"),
        other => panic!("unexpected error: {}", other.message()),
    }
}

#[test]
fn cached_file_returns_no_children() {
    let mut cache = cache_new();
    let meta = ResourceMetadata {
        path: "/a.txt".to_string(),
        is_dir: false,
        len: 7,
        modified: 1,
        created: Some(1),
        etag: "F1".to_string(),
    };
    cache_insert(&mut cache, "/a.txt".to_string(), meta);
    let start = list_start(&cache, "/a.txt", 0).expect("stat of a file succeeds");
    match start {
        ListStart::Done(info) => {
            assert_eq!(info.metadata.etag, "F1");
            assert_eq!(info.metadata.len, 7);
            assert!(info.children.is_none());
        }
        ListStart::Paginate(_) => panic!("a file must not paginate"),
    }
}

#[test]
fn two_page_listing_preserves_order_and_fills_cache() {
    let mut cache = cache_new();
    cache_insert(&mut cache, "/foo".to_string(), dir_meta("/foo", "FID_FOO"));

    let start = list_start(&cache, "/foo", 0).expect("cached directory lists");
    let mut lister = match start {
        ListStart::Paginate(l) => l,
        ListStart::Done(_) => panic!("a directory must paginate"),
    };
    assert_eq!(lister.dir.etag, "FID_FOO");

    let q = lister.next_page_query();
    assert_eq!(q[1], ("pdir_fid".to_string(), "FID_FOO".to_string()));
    assert_eq!(q[3], ("_page".to_string(), "1".to_string()));
    assert_eq!(q[4], ("_size".to_string(), "100".to_string()));

    let mut first: Vec<List> = Vec::new();
    for i in 0..100 {
        first.push(entry(&format!("f{}", i), &format!("fid{}", i), i as i64, true));
    }
    let done = lister.apply_page(&page(first, 1, 150), &mut cache, 0);
    assert!(!done);
    assert_eq!(lister.page, 2);
    assert_eq!(lister.next_page_query()[3], ("_page".to_string(), "2".to_string()));

    let mut second: Vec<List> = Vec::new();
    for i in 100..150 {
        second.push(entry(&format!("f{}", i), &format!("fid{}", i), i as i64, true));
    }
    let done = lister.apply_page(&page(second, 2, 150), &mut cache, 0);
    assert!(done);

    let info = lister.finish();
    let children = info.children.expect("directory listing returns children");
    assert_eq!(children.len(), 150);
    for i in 0..150 {
        assert_eq!(children[i].path, format!("/foo/f{}", i));
        assert_eq!(children[i].etag, format!("fid{}", i));
        assert_eq!(children[i].len, i as u64);
        assert!(!children[i].is_dir);
    }
    // every child is cached under its canonical key
    for i in 0..150 {
        let got = cache_get(&cache, &format!("/foo/f{}", i)).expect("child cached");
        assert_eq!(got.etag, format!("fid{}", i));
    }
    // the listed directory itself keeps its old record
    assert_eq!(cache_get(&cache, "/foo").expect("dir still cached").etag, "FID_FOO");
}

#[test]
fn directory_children_get_trailing_slash_keys() {
    let mut cache = cache_new();
    cache_insert(&mut cache, "/d".to_string(), dir_meta("/d", "D"));
    let start = list_start(&cache, "/d", 0).expect("starts");
    let mut lister = match start {
        ListStart::Paginate(l) => l,
        _ => panic!("directory must paginate"),
    };
    let entries = vec![entry("sub", "S1", 0, false), entry("file.bin", "S2", 9, true)];
    let done = lister.apply_page(&page(entries, 1, 2), &mut cache, 0);
    assert!(done);
    let sub = cache_get(&cache, "/d/sub/").expect("directory child keyed with slash");
    assert!(sub.is_dir);
    assert_eq!(sub.len, 0);
    assert!(cache_get(&cache, "/d/sub").is_none());
    let f = cache_get(&cache, "/d/file.bin").expect("file child keyed without slash");
    assert!(!f.is_dir);
    assert_eq!(f.len, 9);
}

#[test]
fn prefetched_pages_run_to_completion() {
    let mut cache = cache_new();
    cache_insert(&mut cache, "/bar".to_string(), dir_meta("/bar", "FID_BAR"));
    let start = list_start(&cache, "/bar", 0).expect("cached directory lists");
    let mut lister = match start {
        ListStart::Paginate(l) => l,
        _ => panic!("directory must paginate"),
    };
    let mut first: Vec<List> = Vec::new();
    for i in 0..100 {
        first.push(entry(&format!("g{}", i), &format!("gid{}", i), 1, true));
    }
    let mut second: Vec<List> = Vec::new();
    for i in 100..130 {
        second.push(entry(&format!("g{}", i), &format!("gid{}", i), 1, true));
    }
    let pages = vec![page(first, 1, 130), page(second, 2, 130)];
    let done = apply_pages(&mut lister, &pages, &mut cache, 0);
    assert!(done);
    let info = lister.finish();
    let children = info.children.expect("children returned");
    assert_eq!(children.len(), 130);
    for c in &children {
        assert!(cache_get(&cache, &c.path).is_some());
    }
}

#[test]
fn child_descriptor_fields() {
    let e = entry("a.txt", "X", 123, true);
    let m = child_descriptor("/p", &e, 7);
    assert_eq!(m.path, "/p/a.txt");
    assert!(!m.is_dir);
    assert_eq!(m.len, 123);
    assert_eq!(m.modified, 1_700_000_000);
    assert_eq!(m.created, Some(1_600_000_000));
    assert_eq!(m.etag, "X");
}

#[test]
fn child_descriptor_negative_size_and_directory() {
    let neg = entry("n", "N", -5, true);
    let m = child_descriptor("/p", &neg, 7);
    assert_eq!(m.len, 0);

    let d = entry("d", "D", 99, false);
    let md = child_descriptor("/p", &d, 7);
    assert!(md.is_dir);
    assert_eq!(md.len, 0);
}

#[test]
fn out_of_range_timestamp_defaults_to_now() {
    let mut e = entry("a", "A", 1, true);
    e.updated_at = i64::MAX;
    let m = child_descriptor("/p", &e, 31337);
    assert_eq!(m.modified, 31337);
    assert_eq!(m.created, Some(1_600_000_000));
}

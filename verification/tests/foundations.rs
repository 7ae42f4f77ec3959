use webdav_rs::clock::{normalize_timestamp, timestamp_in_range};
use webdav_rs::config::{Config, ConfigError, FileSystemConfig, LogConfig, QuarkConfig, ServerConfig, StorageConfig};
use webdav_rs::decimal::u64_to_string;
use webdav_rs::error::{DownloadError, WebDavError};
use webdav_rs::fs::FileSystemBackend;
use webdav_rs::paths::{join_path, key_for};

#[test]
fn decimal_rendering() {
    assert_eq!(u64_to_string(0), "0");
    assert_eq!(u64_to_string(7), "7");
    assert_eq!(u64_to_string(10), "10");
    assert_eq!(u64_to_string(262_143), "262143");
    assert_eq!(u64_to_string(u64::MAX), "18446744073709551615");
}

#[test]
fn path_joining() {
    assert_eq!(join_path("", "a"), "a");
    assert_eq!(join_path("/", "a"), "/a");
    assert_eq!(join_path("/foo", "a"), "/foo/a");
    assert_eq!(join_path("/foo/", "a"), "/foo/a");
}

#[test]
fn cache_keys_follow_kind() {
    assert_eq!(key_for("/a/b", false), "/a/b");
    assert_eq!(key_for("/a/b", true), "/a/b/");
}

#[test]
fn filesystem_path_resolution() {
    let b = FileSystemBackend::new("/srv/data");
    assert_eq!(b.resolve_path(""), "/srv/data");
    assert_eq!(b.resolve_path("/a/b"), "/srv/data/a/b");
    assert_eq!(b.resolve_path("a/b"), "/srv/data/a/b");
    let slashed = FileSystemBackend::new("/srv/data/");
    assert_eq!(slashed.resolve_path("/a"), "/srv/data/a");
}

#[test]
fn timestamps_normalise() {
    assert_eq!(normalize_timestamp(1_700_000_000_000, 42), 1_700_000_000);
    assert_eq!(normalize_timestamp(0, 42), 0);
    assert_eq!(normalize_timestamp(999, 42), 0);
    // far out of the calendar's range: falls back to now
    assert_eq!(normalize_timestamp(i64::MAX, 42), 42);
    assert!(timestamp_in_range(0));
    assert!(!timestamp_in_range(i64::MAX));
}

#[test]
fn webdav_error_status_codes() {
    assert_eq!(WebDavError::NotFound("p".into()).status_code(), 404);
    assert_eq!(WebDavError::AlreadyExists("p".into()).status_code(), 409);
    assert_eq!(WebDavError::PermissionDenied("p".into()).status_code(), 403);
    assert_eq!(WebDavError::LockConflict.status_code(), 423);
    assert_eq!(WebDavError::InvalidInput("m".into()).status_code(), 400);
    assert_eq!(WebDavError::Io("m".into()).status_code(), 500);
    assert_eq!(WebDavError::XmlError("m".into()).status_code(), 500);
    assert_eq!(WebDavError::Internal("m".into()).status_code(), 500);
    assert_eq!(WebDavError::RequestError("m".into()).status_code(), 500);
}

#[test]
fn webdav_error_messages() {
    assert_eq!(
        WebDavError::NotFound("/a".into()).message(),
        "Resource not found: /a"
    );
    assert_eq!(WebDavError::LockConflict.message(), "Lock conflict");
    assert_eq!(
        WebDavError::Internal("boom".into()).message(),
        "Internal server error: boom"
    );
}

#[test]
fn download_error_messages() {
    assert_eq!(
        DownloadError::RangeNotSupported(200).message(),
        "range requests not supported, status: 200"
    );
    assert_eq!(
        DownloadError::DataSizeExceeded.message(),
        "received data exceeds the expected size"
    );
    assert_eq!(
        DownloadError::RequestError("x".into()).message(),
        "HTTP request error: x"
    );
    assert_eq!(DownloadError::IoError("disk full".into()).message(), "IO error: disk full");
    let w = DownloadError::ResultLocked.to_webdav();
    assert_eq!(w.message(), "Internal server error: could not take the final result");
}

#[test]
fn config_error_messages() {
    assert_eq!(
        ConfigError::ReadError("no file".into()).message(),
        "Failed to read config file: no file"
    );
    assert_eq!(
        ConfigError::ParseError("bad toml".into()).message(),
        "Failed to parse config file: bad toml"
    );
}

fn config(temp: &str) -> Config {
    Config {
        server: ServerConfig {
            host: "127.0.0.1".to_string(),
            port: 8080,
            prefix: "dav".to_string(),
            log_level: "info".to_string(),
        },
        storage: StorageConfig {
            backend: "quark".to_string(),
            temp_path: temp.to_string(),
            filesystem: FileSystemConfig { root_path: "/srv".to_string() },
            quark: QuarkConfig { cookie: "c".to_string(), root_id: "0".to_string() },
        },
        log: LogConfig { file_enabled: false, file_path: String::new() },
    }
}

#[test]
fn empty_temp_path_gets_default() {
    let c = config("").with_defaults();
    assert_eq!(c.storage.temp_path, "./temp");
    assert_eq!(c.storage.backend, "quark");
    let kept = config("/tmp/cache").with_defaults();
    assert_eq!(kept.storage.temp_path, "/tmp/cache");
}

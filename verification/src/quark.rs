//! The remote cloud-drive backend: one path/identifier cache shared by
//! every request, the entry points of the listing and download protocols,
//! and the unimplemented write-side stubs.
//!
//! A driver owns a `QuarkBackend`, answers `get_resource` through the
//! lister of `list`, and `read_file` through `read_file_resolve`,
//! `read_file_plan`, `DownloadJob::from_response` and the machine of
//! `download`; the disk cache under `temp_path`, keyed by identifier, is
//! consulted between the resolve and the plan.

use vstd::prelude::*;
use vstd::string::StringExecFns;
use crate::cache::{cache_new, cache_get, dash_contents, empty_contents};
use crate::download::{DownloadJob, PART_SIZE};
use crate::error::WebDavError;
use crate::types::{DownResp, ResourceMetadata};

verus! {

/// Cap on the range requests of one download.
pub const DOWNLOAD_CONCURRENCY: usize = 2;

/// The remote backend: its only state is the path/identifier cache.
pub struct QuarkBackend {
    /// Canonical path strings to descriptors; populated by listings only.
    pub path_map: dashmap::DashMap<String, ResourceMetadata>,
}

impl QuarkBackend {
    /// A backend with an empty cache.
    pub fn new() -> (b: QuarkBackend)
        ensures
            dash_contents(b.path_map) == empty_contents(),
    {
        QuarkBackend { path_map: cache_new() }
    }

    /// Resolves a file read: the path must have been cached by an earlier
    /// listing.
    pub fn read_file_resolve(&self, path: &str) -> (r: Result<ResourceMetadata, WebDavError>)
        ensures
            !dash_contents(self.path_map).dom().contains(path@) ==> (r matches Err(e) && e
                matches WebDavError::NotFound(q) && q@ == path@),
            dash_contents(self.path_map).dom().contains(path@) ==> (r matches Ok(m) && m
                == dash_contents(self.path_map)[path@]),
    {
        match cache_get(&self.path_map, path) {
            None => Err(WebDavError::NotFound(String::from_str(path))),
            Some(m) => Ok(m),
        }
    }

    /// Unimplemented write path.
    pub fn write_file(&self, _path: &str, _content: &Vec<u8>) -> (r: Result<(), WebDavError>)
        ensures
            r matches Err(e) && e matches WebDavError::Internal(m) && m@ == "not implemented"@,
    {
        Err(WebDavError::Internal(String::from_str("not implemented")))
    }

    /// Unimplemented write path.
    pub fn create_dir(&self, _path: &str) -> (r: Result<(), WebDavError>)
        ensures
            r matches Err(e) && e matches WebDavError::Internal(m) && m@ == "not implemented"@,
    {
        Err(WebDavError::Internal(String::from_str("not implemented")))
    }

    /// Unimplemented write path.
    pub fn delete(&self, _path: &str) -> (r: Result<(), WebDavError>)
        ensures
            r matches Err(e) && e matches WebDavError::Internal(m) && m@ == "not implemented"@,
    {
        Err(WebDavError::Internal(String::from_str("not implemented")))
    }

    /// Unimplemented write path.
    pub fn copy(&self, _from: &str, _to: &str) -> (r: Result<(), WebDavError>)
        ensures
            r matches Err(e) && e matches WebDavError::Internal(m) && m@ == "not implemented"@,
    {
        Err(WebDavError::Internal(String::from_str("not implemented")))
    }

    /// Unimplemented write path.
    pub fn move_resource(&self, _from: &str, _to: &str) -> (r: Result<(), WebDavError>)
        ensures
            r matches Err(e) && e matches WebDavError::Internal(m) && m@ == "not implemented"@,
    {
        Err(WebDavError::Internal(String::from_str("not implemented")))
    }
}

/// What a resolved file read does next: a body the disk cache already
/// held is answered as it is — no control-plane or data-plane request is
/// issued for it — and only a missing one is fetched by identifier.
pub enum ReadPlan {
    /// The disk cache held the object: these are the bytes.
    Cached(Vec<u8>),
    /// Ask the control plane for a signed URL for this identifier.
    Fetch(String),
}

/// Decides a resolved file read from what the disk cache answered.
pub fn read_file_plan(meta: &ResourceMetadata, cached: Option<Vec<u8>>) -> (r: ReadPlan)
    ensures
        cached matches Some(b) ==> (r matches ReadPlan::Cached(bytes) && bytes@ == b@),
        cached is None ==> (r matches ReadPlan::Fetch(fid) && fid@ == meta.etag@),
{
    match cached {
        Some(b) => ReadPlan::Cached(b),
        None => ReadPlan::Fetch(meta.etag.clone()),
    }
}

impl DownloadJob {
    /// The job one download answer describes: the signed URL and object
    /// size of its first entry, in chunks of `PART_SIZE` with at most
    /// `DOWNLOAD_CONCURRENCY` requests in flight.
    pub fn from_response(resp: &DownResp, fid: &str) -> (job: DownloadJob)
        requires
            resp.data@.len() > 0,
            0 <= resp.data@[0].size <= usize::MAX,
        ensures
            job.url == resp.data@[0].download_url,
            job.total_size == resp.data@[0].size,
            job.part_size == PART_SIZE,
            job.concurrency == DOWNLOAD_CONCURRENCY,
            job.fid@ == fid@,
    {
        DownloadJob {
            url: resp.data[0].download_url.clone(),
            total_size: resp.data[0].size as usize,
            part_size: PART_SIZE,
            concurrency: DOWNLOAD_CONCURRENCY,
            fid: String::from_str(fid),
        }
    }
}

} // verus!

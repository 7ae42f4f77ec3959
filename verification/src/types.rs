//! Resource descriptors and the wire schema of the remote listing and
//! download endpoints.

use vstd::prelude::*;

verus! {

/// The canonical in-memory record for a resource.
///
/// `modified` and `created` are whole seconds since the Unix epoch; the
/// remote reports milliseconds and the lister divides by 1000. For the
/// remote backend `etag` equals the remote file identifier (`fid`); the
/// root directory's identifier is the literal `"0"`.
#[derive(Debug, Clone)]
pub struct ResourceMetadata {
    /// Canonical path, rooted at `/`.
    pub path: String,
    pub is_dir: bool,
    /// Byte length of file content; `0` for directories.
    pub len: u64,
    /// Seconds since the Unix epoch.
    pub modified: i64,
    /// Seconds since the Unix epoch; may be absent.
    pub created: Option<i64>,
    /// Opaque cache validator; for the remote backend, the `fid`.
    pub etag: String,
}

impl ResourceMetadata {
    /// Directories carry no content length.
    pub open spec fn wf(self) -> bool {
        self.is_dir ==> self.len == 0
    }

    /// A field-wise copy, equal to the original.
    pub fn duplicate(&self) -> (r: ResourceMetadata)
        ensures
            r == *self,
    {
        ResourceMetadata {
            path: self.path.clone(),
            is_dir: self.is_dir,
            len: self.len,
            modified: self.modified,
            created: self.created,
            etag: self.etag.clone(),
        }
    }
}

/// A resource and, for a listed directory, its children in remote order.
#[derive(Debug)]
pub struct ResourceInfo {
    pub metadata: ResourceMetadata,
    /// `None` when the resource is a file.
    pub children: Option<Vec<ResourceMetadata>>,
}

/// The envelope fields shared by every control-plane response.
#[derive(Debug, Clone)]
pub struct Resp {
    pub status: i32,
    pub code: i32,
    pub message: String,
}

/// One entry of a directory listing page.
#[derive(Debug, Clone)]
pub struct List {
    /// Opaque remote identifier.
    pub fid: String,
    pub file_name: String,
    pub size: i64,
    /// `true` means the entry is a file.
    pub file: bool,
    pub l_updated_at: Option<i64>,
    /// Milliseconds since the Unix epoch.
    pub updated_at: i64,
    /// Milliseconds since the Unix epoch.
    pub created_at: i64,
}

/// The entries of one listing page.
#[derive(Debug, Clone)]
pub struct SortData {
    pub list: Vec<List>,
}

/// Pagination counters of one listing page.
#[derive(Debug, Clone)]
pub struct SortMetadata {
    pub size: i32,
    pub page: i32,
    pub count: i32,
    /// Total number of children of the listed directory.
    pub total: i32,
    pub way: Option<String>,
}

/// One page of the paginated listing endpoint.
#[derive(Debug, Clone)]
pub struct SortResp {
    pub resp: Resp,
    pub data: SortData,
    pub metadata: SortMetadata,
}

/// One object of the download endpoint's answer.
#[derive(Debug, Clone)]
pub struct DownData {
    /// Signed URL for the ranged data-plane requests.
    pub download_url: String,
    pub range_size: i64,
    /// Byte length of the object.
    pub size: i64,
}

/// The download endpoint's answer.
#[derive(Debug, Clone)]
pub struct DownResp {
    pub resp: Resp,
    pub data: Vec<DownData>,
}

} // verus!

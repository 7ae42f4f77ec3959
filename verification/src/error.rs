//! Error taxonomy at the core boundary, and its mapping to HTTP status
//! codes and human-readable messages.

use vstd::prelude::*;
use vstd::string::StringExecFns;
use crate::decimal::{dec_seq, u64_to_string};

verus! {

/// An error surfaced by a backend operation.
#[derive(Debug, Clone)]
pub enum WebDavError {
    /// Cache miss for a non-root path, or a remote 404.
    NotFound(String),
    /// Reserved for the write path.
    AlreadyExists(String),
    /// Remote 403.
    PermissionDenied(String),
    /// Disk failure while reading or persisting.
    Io(String),
    /// Missing or invalid credential or request input.
    InvalidInput(String),
    LockConflict,
    XmlError(String),
    /// Remote business error, parse failure, unmapped status.
    Internal(String),
    RequestError(String),
}

impl WebDavError {
    /// The human-readable rendering of this error.
    pub open spec fn spec_message(self) -> Seq<char> {
        match self {
            WebDavError::NotFound(p) => "Resource not found: "@ + p@,
            WebDavError::AlreadyExists(p) => "Resource already exists: "@ + p@,
            WebDavError::PermissionDenied(p) => "Permission denied: "@ + p@,
            WebDavError::Io(m) => "IO error: "@ + m@,
            WebDavError::InvalidInput(m) => "Invalid input: "@ + m@,
            WebDavError::LockConflict => "Lock conflict"@,
            WebDavError::XmlError(m) => "XML error: "@ + m@,
            WebDavError::Internal(m) => "Internal server error: "@ + m@,
            WebDavError::RequestError(m) => "Request error: "@ + m@,
        }
    }

    /// Renders the error for a response body.
    pub fn message(&self) -> (s: String)
        ensures
            s@ == self.spec_message(),
    {
        proof {
            reveal_strlit("Resource not found: ");
            reveal_strlit("Resource already exists: ");
            reveal_strlit("Permission denied: ");
            reveal_strlit("IO error: ");
            reveal_strlit("Invalid input: ");
            reveal_strlit("Lock conflict");
            reveal_strlit("XML error: ");
            reveal_strlit("Internal server error: ");
            reveal_strlit("Request error: ");
        }
        match self {
            WebDavError::NotFound(p) => {
                let mut s = String::from_str("Resource not found: ");
                s.append(p.as_str());
                s
            },
            WebDavError::AlreadyExists(p) => {
                let mut s = String::from_str("Resource already exists: ");
                s.append(p.as_str());
                s
            },
            WebDavError::PermissionDenied(p) => {
                let mut s = String::from_str("Permission denied: ");
                s.append(p.as_str());
                s
            },
            WebDavError::Io(m) => {
                let mut s = String::from_str("IO error: ");
                s.append(m.as_str());
                s
            },
            WebDavError::InvalidInput(m) => {
                let mut s = String::from_str("Invalid input: ");
                s.append(m.as_str());
                s
            },
            WebDavError::LockConflict => String::from_str("Lock conflict"),
            WebDavError::XmlError(m) => {
                let mut s = String::from_str("XML error: ");
                s.append(m.as_str());
                s
            },
            WebDavError::Internal(m) => {
                let mut s = String::from_str("Internal server error: ");
                s.append(m.as_str());
                s
            },
            WebDavError::RequestError(m) => {
                let mut s = String::from_str("Request error: ");
                s.append(m.as_str());
                s
            },
        }
    }

    /// The HTTP status this error maps to at the handler boundary.
    pub open spec fn spec_status_code(self) -> u16 {
        match self {
            WebDavError::NotFound(_) => 404,
            WebDavError::AlreadyExists(_) => 409,
            WebDavError::PermissionDenied(_) => 403,
            WebDavError::LockConflict => 423,
            WebDavError::InvalidInput(_) => 400,
            _ => 500,
        }
    }

    /// Maps the error to the HTTP status code that the handler answers with.
    pub fn status_code(&self) -> (code: u16)
        ensures
            code == self.spec_status_code(),
    {
        match self {
            WebDavError::NotFound(_) => 404,
            WebDavError::AlreadyExists(_) => 409,
            WebDavError::PermissionDenied(_) => 403,
            WebDavError::LockConflict => 423,
            WebDavError::InvalidInput(_) => 400,
            _ => 500,
        }
    }
}

/// A failure inside the concurrent ranged downloader.
#[derive(Debug, Clone)]
pub enum DownloadError {
    /// The data plane answered a range request with a status other than
    /// 206 Partial Content.
    RangeNotSupported(u16),
    /// A 206 response came without a `Content-Range` header.
    MissingContentRange,
    /// A chunk body would run past the end of the output buffer.
    DataSizeExceeded,
    /// The output buffer could not be claimed after the workers finished.
    ResultLocked,
    /// Transport-level failure, as reported by the HTTP client.
    RequestError(String),
    /// Disk failure while persisting the downloaded object.
    IoError(String),
}

impl DownloadError {
    /// The human-readable rendering of this error.
    pub open spec fn spec_message(self) -> Seq<char> {
        match self {
            DownloadError::RangeNotSupported(st) => "range requests not supported, status: "@
                + dec_seq(st as int),
            DownloadError::MissingContentRange => "missing Content-Range header"@,
            DownloadError::DataSizeExceeded => "received data exceeds the expected size"@,
            DownloadError::ResultLocked => "could not take the final result"@,
            DownloadError::RequestError(m) => "HTTP request error: "@ + m@,
            DownloadError::IoError(m) => "IO error: "@ + m@,
        }
    }

    /// Renders the error.
    pub fn message(&self) -> (s: String)
        ensures
            s@ == self.spec_message(),
    {
        proof {
            reveal_strlit("range requests not supported, status: ");
            reveal_strlit("missing Content-Range header");
            reveal_strlit("received data exceeds the expected size");
            reveal_strlit("could not take the final result");
            reveal_strlit("HTTP request error: ");
            reveal_strlit("IO error: ");
        }
        match self {
            DownloadError::RangeNotSupported(st) => {
                let mut s = String::from_str("range requests not supported, status: ");
                let num = u64_to_string(*st as u64);
                s.append(num.as_str());
                s
            },
            DownloadError::MissingContentRange => String::from_str("missing Content-Range header"),
            DownloadError::DataSizeExceeded => String::from_str(
                "received data exceeds the expected size",
            ),
            DownloadError::ResultLocked => String::from_str("could not take the final result"),
            DownloadError::RequestError(m) => {
                let mut s = String::from_str("HTTP request error: ");
                s.append(m.as_str());
                s
            },
            DownloadError::IoError(m) => {
                let mut s = String::from_str("IO error: ");
                s.append(m.as_str());
                s
            },
        }
    }

    /// Collapses a downloader failure into the `Internal` kind that the
    /// handler boundary understands.
    pub fn to_webdav(self) -> (e: WebDavError)
        ensures
            e matches WebDavError::Internal(m) && m@ == self.spec_message(),
    {
        WebDavError::Internal(self.message())
    }
}

} // verus!

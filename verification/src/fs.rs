//! The filesystem backend's path arithmetic: resolving a request path
//! against the configured root. The directory walking and file I/O around
//! it live outside the library.

use vstd::prelude::*;
use vstd::string::{StrSliceExecFns, StringExecFns};
use crate::paths::path_join;

verus! {

/// A storage backend over a local directory tree.
#[derive(Clone)]
pub struct FileSystemBackend {
    root: String,
}

impl FileSystemBackend {
    pub closed spec fn spec_root(self) -> Seq<char> {
        self.root@
    }

    /// A backend rooted at the given directory.
    pub fn new(root: &str) -> (b: FileSystemBackend)
        ensures
            b.spec_root() == root@,
    {
        FileSystemBackend { root: String::from_str(root) }
    }

    /// Resolves a request path against the root: the empty path names the
    /// root itself, and a leading `/` is stripped before joining.
    pub fn resolve_path(&self, path: &str) -> (r: String)
        ensures
            path@.len() == 0 ==> r@ == self.spec_root(),
            path@.len() > 0 && path@.first() == '/' ==> r@ == path_join(
                self.spec_root(),
                path@.subrange(1, path@.len() as int),
            ),
            path@.len() > 0 && path@.first() != '/' ==> r@ == path_join(self.spec_root(), path@),
    {
        let n = path.unicode_len();
        if n == 0 {
            self.root.clone()
        } else if path.get_char(0) == '/' {
            let rel = path.substring_char(1, n);
            crate::paths::join_path(self.root.as_str(), rel)
        } else {
            crate::paths::join_path(self.root.as_str(), path)
        }
    }
}

} // verus!

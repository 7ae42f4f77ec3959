//! Canonical path strings: joining a parent path with a child name, and
//! the trailing-slash convention for directory keys.

use vstd::prelude::*;
use vstd::string::{StrSliceExecFns, StringExecFns};

verus! {

/// Joining a parent path and a child name with a single separator, the way
/// a path buffer pushes a relative component.
pub open spec fn path_join(parent: Seq<char>, name: Seq<char>) -> Seq<char> {
    if parent.len() == 0 {
        name
    } else if parent.last() == '/' {
        parent + name
    } else {
        parent + seq!['/'] + name
    }
}

/// The cache key for a resource: its path, with a trailing `/` appended
/// iff the resource is a directory.
pub open spec fn cache_key(path: Seq<char>, is_dir: bool) -> Seq<char> {
    if is_dir {
        path + seq!['/']
    } else {
        path
    }
}

/// Joins a parent path and a child name.
pub fn join_path(parent: &str, name: &str) -> (r: String)
    ensures
        r@ == path_join(parent@, name@),
{
    proof {
        reveal_strlit("/");
    }
    let n = parent.unicode_len();
    if n == 0 {
        String::from_str(name)
    } else {
        let last = parent.get_char(n - 1);
        let mut s = String::from_str(parent);
        if last != '/' {
            s.append("/");
        }
        s.append(name);
        proof {
            assert(s@ =~= path_join(parent@, name@));
        }
        s
    }
}

/// Appends the trailing `/` iff the resource is a directory, yielding the
/// cache key for a path.
pub fn key_for(path: &str, is_dir: bool) -> (r: String)
    ensures
        r@ == cache_key(path@, is_dir),
{
    proof {
        reveal_strlit("/");
    }
    let mut s = String::from_str(path);
    if is_dir {
        s.append("/");
    }
    proof {
        assert(s@ =~= cache_key(path@, is_dir));
    }
    s
}

} // verus!

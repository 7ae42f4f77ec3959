//! The path/identifier cache: a concurrent mapping from canonical path
//! strings to resource descriptors. The remote API is identifier-addressed
//! while WebDAV is path-addressed; directory listings populate this map and
//! every file operation resolves its path here.
//!
//! The map is a concurrent hash map from an outside crate; its contents
//! are named by `dash_contents`, and each operation the library uses
//! carries the contract that the crate's documentation gives it. Writes
//! replace whole descriptors; the listing protocol is the only writer.

use vstd::prelude::*;
use crate::types::ResourceMetadata;

verus! {

#[verifier::external_type_specification]
#[verifier::external_body]
#[verifier::reject_recursive_types(K)]
#[verifier::reject_recursive_types(V)]
#[verifier::reject_recursive_types(S)]
pub struct ExDashMap<K, V, S>(dashmap::DashMap<K, V, S>);

/// What the concurrent map holds: each key, as its character sequence,
/// mapped to the descriptor stored under it.
pub uninterp spec fn dash_contents(m: dashmap::DashMap<String, ResourceMetadata>) -> Map<
    Seq<char>,
    ResourceMetadata,
>;

/// A cache with nothing in it.
pub open spec fn empty_contents() -> Map<Seq<char>, ResourceMetadata> {
    Map::empty()
}

/// An empty cache.
///
/// Relies on dashmap::DashMap::new: the fresh map holds nothing.
#[verifier::external_body]
pub fn cache_new() -> (m: dashmap::DashMap<String, ResourceMetadata>)
    ensures
        dash_contents(m) == empty_contents(),
{
    dashmap::DashMap::new()
}

/// The descriptor under a path key, if one is cached.
///
/// Relies on dashmap::DashMap::get: the value stored under an equal key,
/// or nothing. Two `String` keys are equal iff their characters are.
#[verifier::external_body]
pub fn cache_get(m: &dashmap::DashMap<String, ResourceMetadata>, path: &str) -> (r: Option<
    ResourceMetadata,
>)
    ensures
        r == if dash_contents(*m).dom().contains(path@) {
            Some(dash_contents(*m)[path@])
        } else {
            None::<ResourceMetadata>
        },
{
    m.get(path).map(|r| r.value().clone())
}

/// Stores a descriptor under a path key, replacing any previous one.
///
/// Relies on dashmap::DashMap::insert: afterwards the key maps to the
/// given value and every other key is unchanged.
#[verifier::external_body]
pub fn cache_insert(
    m: &mut dashmap::DashMap<String, ResourceMetadata>,
    path: String,
    meta: ResourceMetadata,
)
    ensures
        dash_contents(*final(m)) == dash_contents(*old(m)).insert(path@, meta),
{
    m.insert(path, meta);
}

} // verus!

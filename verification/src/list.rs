//! The directory lister: paginated traversal of a directory by its remote
//! identifier, materialising the children in remote order and populating
//! the path cache.
//!
//! Fetching a page is an HTTP exchange and happens outside the library.
//! `list_start` resolves the path and decides whether pagination is needed
//! at all; a driver then alternates `next_page_query` (what to ask) with
//! `apply_page` (what one answer means) until the lister reports itself
//! done, and takes the result from `finish`.

use vstd::prelude::*;
use vstd::string::StringExecFns;
use crate::cache::{cache_insert, cache_get, dash_contents};
use crate::clock::spec_normalized_ts;
use crate::clock::normalize_timestamp;
use crate::decimal::dec_seq;
use crate::envelope::sort_query;
use crate::error::WebDavError;
use crate::paths::{cache_key, join_path, key_for, path_join};
use crate::types::{List, ResourceInfo, ResourceMetadata, SortResp};

verus! {

/// The content length a listing entry gives its descriptor: directories
/// carry none, and a negative reported size is treated as empty.
pub open spec fn spec_child_len(e: List) -> int {
    if !e.file {
        0
    } else if e.size >= 0 {
        e.size as int
    } else {
        0
    }
}

/// How a child descriptor relates to the listing entry it was built from:
/// path assembled under the parent, kind and length from the entry, the
/// millisecond timestamps normalised to seconds, and the identifier kept
/// as the etag.
pub open spec fn child_meta_matches(
    parent: Seq<char>,
    e: List,
    now: int,
    m: ResourceMetadata,
) -> bool {
    &&& m.path@ == path_join(parent, e.file_name@)
    &&& m.is_dir == !e.file
    &&& m.len == spec_child_len(e)
    &&& m.modified == spec_normalized_ts(e.updated_at as int, now)
    &&& (m.created matches Some(c) && c == spec_normalized_ts(e.created_at as int, now))
    &&& m.etag == e.fid
}

/// The cache key a listing entry is stored under.
pub open spec fn entry_key(parent: Seq<char>, e: List) -> Seq<char> {
    cache_key(path_join(parent, e.file_name@), !e.file)
}

/// Whether no later entry of the page carries the same key (a later
/// duplicate would overwrite this one).
pub open spec fn last_occurrence(parent: Seq<char>, entries: Seq<List>, j: int) -> bool {
    forall|j2: int| j < j2 < entries.len() ==> entry_key(parent, entries[j2]) != entry_key(
        parent,
        entries[j],
    )
}

/// The synthesised descriptor of the listing root: path `/`, a directory,
/// modified now, with the literal identifier `0`.
pub open spec fn spec_root_meta(m: ResourceMetadata, now: int) -> bool {
    &&& m.path@ == "/"@
    &&& m.is_dir
    &&& m.len == 0
    &&& m.modified == now
    &&& m.created is None
    &&& m.etag@ == "0"@
}

/// How many entries a consistent remote sends on page `page` (1-based) of
/// a directory with `total` children: a full page of 100, or the remainder
/// on the last page.
pub open spec fn page_entry_count(page: int, total: int) -> int {
    if total - (page - 1) * 100 < 100 {
        total - (page - 1) * 100
    } else {
        100
    }
}

/// Builds the descriptor of one listing entry.
pub fn child_descriptor(parent: &str, e: &List, now: i64) -> (m: ResourceMetadata)
    ensures
        child_meta_matches(parent@, *e, now as int, m),
        m.wf(),
{
    let path = join_path(parent, e.file_name.as_str());
    let len: u64 = if e.file {
        if e.size >= 0 {
            e.size as u64
        } else {
            0
        }
    } else {
        0
    };
    let modified = normalize_timestamp(e.updated_at, now);
    let created = normalize_timestamp(e.created_at, now);
    ResourceMetadata {
        path,
        is_dir: !e.file,
        len,
        modified,
        created: Some(created),
        etag: e.fid.clone(),
    }
}

/// An in-progress paginated listing of one directory.
pub struct Lister {
    /// Descriptor of the directory being listed.
    pub dir: ResourceMetadata,
    /// The page the next request asks for, 1-based.
    pub page: u64,
    /// Page size; the protocol uses 100.
    pub size: u64,
    /// Children materialised so far, in remote order.
    pub children: Vec<ResourceMetadata>,
    /// Whether the final page has been applied.
    pub done: bool,
}

/// Where a listing stands after resolving the path: a file is answered at
/// once, a directory starts pagination.
pub enum ListStart {
    Done(ResourceInfo),
    Paginate(Lister),
}

impl Lister {
    /// The states the listing protocol can reach.
    pub open spec fn wf(self) -> bool {
        &&& self.dir.is_dir
        &&& 1 <= self.page <= 0x4000_0000
        &&& self.size == 100
    }

    /// A fresh pagination over a directory.
    pub fn new(dir: ResourceMetadata) -> (l: Lister)
        requires
            dir.is_dir,
        ensures
            l.wf(),
            l.dir == dir,
            l.page == 1,
            l.children@.len() == 0,
            !l.done,
    {
        Lister { dir, page: 1, size: 100, children: Vec::new(), done: false }
    }

    /// The query of the next page request.
    pub fn next_page_query(&self) -> (q: Vec<(String, String)>)
        ensures
            q@.len() == 5,
            q@[0].0@ == "_fetch_total"@ && q@[0].1@ == "1"@,
            q@[1].0@ == "pdir_fid"@ && q@[1].1@ == self.dir.etag@,
            q@[2].0@ == "_sort"@ && q@[2].1@ == "file_type:asc,updated_at:desc"@,
            q@[3].0@ == "_page"@ && q@[3].1@ == dec_seq(self.page as int),
            q@[4].0@ == "_size"@ && q@[4].1@ == dec_seq(self.size as int),
    {
        sort_query(self.dir.etag.as_str(), self.page, self.size)
    }

    /// Applies one page of the remote's answer: the entries are appended
    /// to the children in the order sent, each is stored in the cache
    /// under its canonical key, and the listing is over once the pages so
    /// far cover the remote's total.
    pub fn apply_page(
        &mut self,
        resp: &SortResp,
        cache: &mut dashmap::DashMap<String, ResourceMetadata>,
        now: i64,
    ) -> (done: bool)
        requires
            old(self).wf(),
            !old(self).done,
        ensures
            final(self).wf(),
            final(self).dir == old(self).dir,
            final(self).size == old(self).size,
            done == final(self).done,
            // pagination: stop once the pages requested so far cover the total
            ({
                let total = resp.metadata.total as int;
                if old(self).page * 100 >= total {
                    done && final(self).page == old(self).page
                } else {
                    !done && final(self).page == old(self).page + 1
                }
            }),
            // children: the page's entries appended in remote order
            final(self).children@.len() == old(self).children@.len() + resp.data.list@.len(),
            forall|i: int|
                0 <= i < old(self).children@.len() ==> final(self).children@[i] == old(
                    self,
                ).children@[i],
            forall|j: int|
                0 <= j < resp.data.list@.len() ==> child_meta_matches(
                    old(self).dir.path@,
                    #[trigger] resp.data.list@[j],
                    now as int,
                    final(self).children@[old(self).children@.len() + j],
                ),
            // cache: exactly the entries' keys appear
            forall|k: Seq<char>|
                #[trigger] dash_contents(*final(cache)).dom().contains(k) <==> dash_contents(
                    *old(cache),
                ).dom().contains(k) || (exists|j: int|
                    0 <= j < resp.data.list@.len() && entry_key(
                        old(self).dir.path@,
                        #[trigger] resp.data.list@[j],
                    ) == k),
            // cache: each entry is stored under its key (a later duplicate wins)
            forall|j: int|
                0 <= j < resp.data.list@.len() && last_occurrence(
                    old(self).dir.path@,
                    resp.data.list@,
                    j,
                ) ==> child_meta_matches(
                    old(self).dir.path@,
                    #[trigger] resp.data.list@[j],
                    now as int,
                    dash_contents(*final(cache))[entry_key(old(self).dir.path@, resp.data.list@[j])],
                ),
            // cache: every other key keeps its descriptor
            forall|k: Seq<char>|
                dash_contents(*old(cache)).dom().contains(k) && (forall|j: int|
                    0 <= j < resp.data.list@.len() ==> entry_key(
                        old(self).dir.path@,
                        #[trigger] resp.data.list@[j],
                    ) != k) ==> #[trigger] dash_contents(*final(cache))[k] == dash_contents(
                    *old(cache),
                )[k],
            // a run whose pages carry the protocol's entry counts returns
            // exactly the remote total
            ({
                let total = resp.metadata.total as int;
                (old(self).children@.len() == (old(self).page - 1) * 100 && total >= (old(
                    self,
                ).page - 1) * 100 && resp.data.list@.len() == page_entry_count(
                    old(self).page as int,
                    total,
                )) ==> {
                    &&& done ==> final(self).children@.len() == total
                    &&& !done ==> final(self).children@.len() == (final(self).page - 1) * 100
                }
            }),
    {
        let ghost p = self.dir.path@;
        let ghost el = resp.data.list@;
        let ghost c0 = dash_contents(*cache);
        let ghost len0 = self.children@.len();
        let el_n = resp.data.list.len();
        let mut idx: usize = 0;
        while idx < el_n
            invariant
                idx <= el_n,
                el_n == el.len(),
                el == resp.data.list@,
                p == self.dir.path@,
                len0 == old(self).children@.len(),
                self.dir == old(self).dir,
                self.size == old(self).size,
                self.page == old(self).page,
                self.done == old(self).done,
                old(self).wf(),
                self.children@.len() == len0 + idx,
                forall|i: int| 0 <= i < len0 ==> self.children@[i] == old(self).children@[i],
                forall|j: int|
                    0 <= j < idx ==> child_meta_matches(
                        p,
                        #[trigger] el[j],
                        now as int,
                        self.children@[len0 + j],
                    ),
                forall|k: Seq<char>|
                    #[trigger] dash_contents(*cache).dom().contains(k) <==> c0.dom().contains(k)
                        || (exists|j: int|
                        0 <= j < idx && entry_key(p, #[trigger] el[j]) == k),
                forall|j: int|
                    0 <= j < idx && (forall|j2: int|
                        j < j2 < idx ==> entry_key(p, #[trigger] el[j2]) != entry_key(p, el[j]))
                        ==> child_meta_matches(
                        p,
                        #[trigger] el[j],
                        now as int,
                        dash_contents(*cache)[entry_key(p, el[j])],
                    ),
                forall|k: Seq<char>|
                    c0.dom().contains(k) && (forall|j: int|
                        0 <= j < idx ==> entry_key(p, #[trigger] el[j]) != k)
                        ==> #[trigger] dash_contents(*cache)[k] == c0[k],
            decreases el_n - idx,
        {
            let e = &resp.data.list[idx];
            let m = child_descriptor(self.dir.path.as_str(), e, now);
            let key = key_for(m.path.as_str(), m.is_dir);
            let stored = m.duplicate();
            proof {
                assert(key@ == entry_key(p, el[idx as int]));
            }
            self.children.push(m);
            cache_insert(cache, key, stored);
            idx = idx + 1;
        }
        let total = resp.metadata.total;
        let finished: bool = if total <= 0 {
            true
        } else {
            self.page * self.size >= (total as u64)
        };
        if finished {
            self.done = true;
        } else {
            self.page = self.page + 1;
        }
        finished
    }

    /// The listed directory with its children, once the final page has
    /// been applied.
    pub fn finish(self) -> (r: ResourceInfo)
        requires
            self.done,
        ensures
            r.metadata == self.dir,
            r.children matches Some(c) && c@ == self.children@,
    {
        ResourceInfo { metadata: self.dir, children: Some(self.children) }
    }
}

/// Whether every page reports the same total and carries the entry count
/// the protocol prescribes for its position.
pub open spec fn protocol_pages(pages: Seq<SortResp>, total: int) -> bool {
    forall|k: int|
        0 <= k < pages.len() ==> (#[trigger] pages[k]).metadata.total == total
            && pages[k].data.list@.len() == page_entry_count(k + 1, total)
}

/// Applies pre-fetched pages in order until the lister is done or the
/// pages run out.
///
/// For any directory listed successfully against a remote that reports one
/// constant total and serves the protocol's entry count on every page, the
/// children materialised are exactly that total.
pub fn apply_pages(
    l: &mut Lister,
    pages: &Vec<SortResp>,
    cache: &mut dashmap::DashMap<String, ResourceMetadata>,
    now: i64,
) -> (done: bool)
    requires
        old(l).wf(),
        !old(l).done,
        old(l).page == 1,
        old(l).children@.len() == 0,
    ensures
        final(l).wf(),
        final(l).dir == old(l).dir,
        done == final(l).done,
        // the run consumes the pages: it stops short of the end only by
        // finishing, and otherwise advances one page per answer
        !done ==> final(l).page == old(l).page + pages@.len(),
        // against a consistent remote, the run finishes exactly when the
        // supplied pages cover the total
        (pages@.len() > 0 && 0 <= pages@[0].metadata.total && protocol_pages(
            pages@,
            pages@[0].metadata.total as int,
        )) ==> (done <==> 100 * pages@.len() >= pages@[0].metadata.total),
        (pages@.len() > 0 && 0 <= pages@[0].metadata.total && protocol_pages(
            pages@,
            pages@[0].metadata.total as int,
        ) && done) ==> final(l).children@.len() == pages@[0].metadata.total,
        // ... and the children are the applied pages' entries, in order
        (pages@.len() > 0 && 0 <= pages@[0].metadata.total && protocol_pages(
            pages@,
            pages@[0].metadata.total as int,
        ) && done) ==> (forall|k2: int, j: int|
            0 <= k2 < pages@.len() && (k2 == 0 || 100 * k2 < pages@[0].metadata.total) && 0 <= j
                < pages@[k2].data.list@.len() ==> child_meta_matches(
                old(l).dir.path@,
                #[trigger] pages@[k2].data.list@[j],
                now as int,
                final(l).children@[100 * k2 + j],
            )),
        // every child materialised by the run is cached under its key
        forall|j: int|
            0 <= j < final(l).children@.len() ==> dash_contents(*final(cache)).dom().contains(
                cache_key(
                    (#[trigger] final(l).children@[j]).path@,
                    final(l).children@[j].is_dir,
                ),
            ),
{
    let ghost total: int = if pages@.len() > 0 {
        pages@[0].metadata.total as int
    } else {
        0
    };
    let ghost consistent: bool = pages@.len() > 0 && 0 <= total && protocol_pages(pages@, total);
    let n = pages.len();
    let mut k: usize = 0;
    let mut finished: bool = false;
    while k < n && !finished
        invariant
            k <= n,
            n == pages@.len(),
            l.wf(),
            l.dir == old(l).dir,
            finished == l.done,
            !finished ==> l.page == k + 1,
            consistent == (pages@.len() > 0 && 0 <= total && protocol_pages(pages@, total)),
            pages@.len() > 0 ==> total == pages@[0].metadata.total,
            consistent && !finished ==> l.children@.len() == k * 100 && k * 100 <= total,
            consistent && !finished ==> (k == 0 || 100 * k < total),
            consistent && finished ==> l.children@.len() == total,
            consistent && finished ==> k >= 1 && 100 * k >= total,
            consistent ==> (forall|k2: int, j: int|
                0 <= k2 < k && 0 <= j < pages@[k2].data.list@.len() ==> child_meta_matches(
                    old(l).dir.path@,
                    #[trigger] pages@[k2].data.list@[j],
                    now as int,
                    l.children@[100 * k2 + j],
                )),
            forall|j: int|
                0 <= j < l.children@.len() ==> dash_contents(*cache).dom().contains(
                    cache_key((#[trigger] l.children@[j]).path@, l.children@[j].is_dir),
                ),
        decreases n - k,
    {
        let resp = &pages[k];
        let ghost pre_children = l.children@;
        let ghost pre_cache = dash_contents(*cache);
        let ghost pre_page = l.page as int;
        finished = l.apply_page(resp, cache, now);
        proof {
            if consistent {
                assert(pages@[k as int].metadata.total == total);
                assert(resp.data.list@.len() == page_entry_count(k + 1, total));
                assert forall|k2: int, j: int|
                    0 <= k2 < k + 1 && 0 <= j < pages@[k2].data.list@.len() implies child_meta_matches(
                    old(l).dir.path@,
                    #[trigger] pages@[k2].data.list@[j],
                    now as int,
                    l.children@[100 * k2 + j],
                ) by {
                    if k2 < k {
                        assert(100 * k2 + j < 100 * k2 + 100);
                        assert(pages@[k2].data.list@.len() == page_entry_count(k2 + 1, total));
                        assert(l.children@[100 * k2 + j] == pre_children[100 * k2 + j]);
                    } else {
                        assert(pre_children.len() == 100 * k);
                        assert(l.children@[pre_children.len() + j] == l.children@[100 * k2 + j]);
                    }
                }
            }
        }
        proof {
            assert forall|j: int|
                0 <= j < l.children@.len() implies dash_contents(*cache).dom().contains(
                cache_key((#[trigger] l.children@[j]).path@, l.children@[j].is_dir),
            ) by {
                if j < pre_children.len() {
                    assert(l.children@[j] == pre_children[j]);
                    assert(pre_cache.dom().contains(
                        cache_key(pre_children[j].path@, pre_children[j].is_dir),
                    ));
                } else {
                    let idx = j - pre_children.len();
                    assert(child_meta_matches(
                        l.dir.path@,
                        resp.data.list@[idx],
                        now as int,
                        l.children@[j],
                    ));
                    assert(entry_key(l.dir.path@, resp.data.list@[idx]) == cache_key(
                        l.children@[j].path@,
                        l.children@[j].is_dir,
                    ));
                }
            }
        }
        k = k + 1;
    }
    proof {
        if consistent && finished {
            assert forall|k2: int, j: int|
                0 <= k2 < pages@.len() && (k2 == 0 || 100 * k2 < total) && 0 <= j
                    < pages@[k2].data.list@.len() implies child_meta_matches(
                old(l).dir.path@,
                #[trigger] pages@[k2].data.list@[j],
                now as int,
                l.children@[100 * k2 + j],
            ) by {
                assert(k2 < k);
            }
        }
    }
    finished
}

/// Resolves a listing request: the empty path names the synthesised root
/// (the cache is never consulted for the root's own entry), any other path
/// must already be cached; a cached file is answered without children, a
/// cached directory starts pagination.
pub fn list_start(
    cache: &dashmap::DashMap<String, ResourceMetadata>,
    path: &str,
    now: i64,
) -> (r: Result<ListStart, WebDavError>)
    ensures
        path@.len() == 0 ==> (r matches Ok(s) && s matches ListStart::Paginate(l) && l.wf()
            && spec_root_meta(l.dir, now as int) && l.children@.len() == 0 && l.page == 1
            && !l.done),
        path@.len() > 0 && !dash_contents(*cache).dom().contains(path@) ==> (r matches Err(e) && e
            matches WebDavError::NotFound(q) && q@ == path@),
        path@.len() > 0 && dash_contents(*cache).dom().contains(path@) && !dash_contents(
            *cache,
        )[path@].is_dir ==> (r matches Ok(s) && s matches ListStart::Done(info) && info.metadata
            == dash_contents(*cache)[path@] && info.children is None),
        path@.len() > 0 && dash_contents(*cache).dom().contains(path@) && dash_contents(
            *cache,
        )[path@].is_dir ==> (r matches Ok(s) && s matches ListStart::Paginate(l) && l.wf() && l.dir
            == dash_contents(*cache)[path@] && l.children@.len() == 0 && l.page == 1 && !l.done),
{
    if path.is_empty() {
        let root = ResourceMetadata {
            path: String::from_str("/"),
            is_dir: true,
            len: 0,
            modified: now,
            created: None,
            etag: String::from_str("0"),
        };
        Ok(ListStart::Paginate(Lister::new(root)))
    } else {
        match cache_get(cache, path) {
            None => Err(WebDavError::NotFound(String::from_str(path))),
            Some(meta) => {
                if !meta.is_dir {
                    Ok(ListStart::Done(ResourceInfo { metadata: meta, children: None }))
                } else {
                    Ok(ListStart::Paginate(Lister::new(meta)))
                }
            },
        }
    }
}

} // verus!

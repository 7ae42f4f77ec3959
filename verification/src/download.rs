//! The concurrent ranged downloader: a file body is reconstructed from
//! many partial-content range requests over disjoint chunks, written into
//! one shared output buffer, with a fixed cap on the requests in flight.
//!
//! The HTTP exchanges happen outside the library. A driver repeatedly asks
//! `start_next` which chunk to request (refused beyond the concurrency
//! cap), sends the range request it describes, and hands the answer to
//! `apply_response`; when every chunk is done, `take_result` yields the
//! assembled body.

use vstd::prelude::*;
use vstd::string::StringExecFns;
use crate::decimal::{dec_seq, usize_to_string};
use crate::error::DownloadError;

verus! {

/// Byte length of one download chunk: every chunk but the last has
/// exactly this size.
pub const PART_SIZE: usize = 262144;

/// Number of chunks needed to cover `total` bytes in parts of `part` bytes
/// (the last chunk may be short).
pub open spec fn chunk_count(total: nat, part: nat) -> nat
    recommends
        part > 0,
{
    ((total + part - 1) / part as int) as nat
}

/// Ceiling division for chunk planning.
pub fn num_chunks(total: usize, part: usize) -> (n: usize)
    requires
        part > 0,
    ensures
        n == chunk_count(total as nat, part as nat),
        n * part >= total,
        total > 0 ==> (n - 1) * part < total,
        total == 0 ==> n == 0,
{
    if total == 0 {
        assert((part - 1) / (part as int) == 0) by (nonlinear_arith)
            requires
                part > 0,
        ;
        0
    } else {
        let n = (total - 1) / part + 1;
        assert(n * part >= total && (n - 1) * part < total) by (nonlinear_arith)
            requires
                part > 0,
                total > 0,
                n == (total - 1) / (part as int) + 1,
        ;
        assert(n == chunk_count(total as nat, part as nat)) by (nonlinear_arith)
            requires
                part > 0,
                total > 0,
                n == (total - 1) / (part as int) + 1,
        ;
        n
    }
}

/// First byte of a chunk.
pub open spec fn chunk_start(i: int, part: int) -> int {
    i * part
}

/// One past the last byte of a chunk: a full part, or the end of the
/// object on the final chunk.
pub open spec fn chunk_end(i: int, part: int, total: int) -> int {
    if (i + 1) * part < total {
        (i + 1) * part
    } else {
        total
    }
}

/// Byte length of a chunk.
pub open spec fn chunk_len(i: int, part: int, total: int) -> int {
    chunk_end(i, part, total) - chunk_start(i, part)
}

/// The chunk grid covers the object exactly: chunks are nonempty, adjacent,
/// and the last one ends at the object's end.
pub proof fn lemma_chunk_layout(part: int, total: int, n: int)
    requires
        part > 0,
        total >= 0,
        n == chunk_count(total as nat, part as nat),
    ensures
        total == 0 ==> n == 0,
        n * part >= total,
        forall|i: int|
            0 <= i < n ==> chunk_start(i, part) < #[trigger] chunk_end(i, part, total) <= total,
        forall|i: int|
            0 <= i < n - 1 ==> #[trigger] chunk_end(i, part, total) == chunk_start(i + 1, part),
        n > 0 ==> chunk_end(n - 1, part, total) == total,
{
    assert(n == (total + part - 1) / part);
    assert(n * part >= total && (total > 0 ==> (n - 1) * part < total) && (total == 0 ==> n == 0))
        by (nonlinear_arith)
        requires
            part > 0,
            total >= 0,
            n == (total + part - 1) / part,
    ;
    assert forall|i: int| 0 <= i < n implies chunk_start(i, part) < #[trigger] chunk_end(
        i,
        part,
        total,
    ) <= total by {
        assert(i * part <= (n - 1) * part && i * part + part == (i + 1) * part && (i + 1) * part
            <= n * part) by (nonlinear_arith)
            requires
                0 <= i < n,
                part > 0,
        ;
    }
    assert forall|i: int| 0 <= i < n - 1 implies #[trigger] chunk_end(i, part, total)
        == chunk_start(i + 1, part) by {
        assert((i + 1) * part <= (n - 1) * part) by (nonlinear_arith)
            requires
                0 <= i < n - 1,
                part > 0,
        ;
    }
    if n > 0 {
        assert((n - 1 + 1) * part == n * part);
    }
}

/// Where one chunk's download stands.
#[derive(Debug, Clone, Copy, PartialEq, Eq, Structural)]
pub enum ChunkState {
    Pending,
    InFlight,
    Done,
}

/// How many chunk requests are in flight.
pub open spec fn count_inflight(s: Seq<ChunkState>) -> int
    decreases s.len(),
{
    if s.len() == 0 {
        0
    } else {
        count_inflight(s.drop_last()) + if s.last() is InFlight {
            1int
        } else {
            0
        }
    }
}

proof fn lemma_count_inflight_update(s: Seq<ChunkState>, i: int, v: ChunkState)
    requires
        0 <= i < s.len(),
    ensures
        count_inflight(s.update(i, v)) == count_inflight(s) - (if s[i] is InFlight {
            1int
        } else {
            0
        }) + (if v is InFlight {
            1int
        } else {
            0
        }),
    decreases s.len(),
{
    if i == s.len() - 1 {
        assert(s.update(i, v).drop_last() =~= s.drop_last());
    } else {
        assert(s.update(i, v).drop_last() =~= s.drop_last().update(i, v));
        lemma_count_inflight_update(s.drop_last(), i, v);
    }
}

proof fn lemma_count_inflight_nonneg(s: Seq<ChunkState>)
    ensures
        count_inflight(s) >= 0,
    decreases s.len(),
{
    if s.len() > 0 {
        lemma_count_inflight_nonneg(s.drop_last());
    }
}

/// One download, from the signed URL to the assembled bytes. Transient:
/// lives for a single read of one object.
#[derive(Debug, Clone)]
pub struct DownloadJob {
    /// Signed data-plane URL.
    pub url: String,
    /// Byte length of the object.
    pub total_size: usize,
    /// Chunk size; every chunk but the last has exactly this length.
    pub part_size: usize,
    /// Cap on the range requests in flight.
    pub concurrency: usize,
    /// Remote identifier; names the disk-cache file.
    pub fid: String,
}

/// The state of one download in progress.
pub struct Downloader {
    pub job: DownloadJob,
    /// The output buffer, `total_size` bytes.
    pub buffer: Vec<u8>,
    /// Per-chunk progress.
    pub status: Vec<ChunkState>,
    /// Number of chunks currently in flight.
    pub inflight: usize,
    /// The body each applied chunk answered with.
    pub bodies: Ghost<Map<int, Seq<u8>>>,
}

impl Downloader {
    /// Every chunk that is done answered with a body of exactly its
    /// chunk's length.
    pub open spec fn exact_sized(self) -> bool {
        forall|i: int|
            0 <= i < self.status@.len() && (#[trigger] self.status@[i]) is Done
                ==> self.bodies@[i].len() == chunk_len(
                i,
                self.job.part_size as int,
                self.job.total_size as int,
            )
    }

    /// Every chunk that is done stands in the buffer at its place.
    pub open spec fn placed(self) -> bool {
        forall|i: int|
            0 <= i < self.status@.len() && (#[trigger] self.status@[i]) is Done
                ==> self.buffer@.subrange(
                chunk_start(i, self.job.part_size as int),
                chunk_end(i, self.job.part_size as int, self.job.total_size as int),
            ) == self.bodies@[i]
    }

    /// The states a download can reach: the buffer spans the object, the
    /// chunk grid covers it, at most `concurrency` requests are in flight,
    /// every applied body fits, and — whenever every applied body had
    /// exactly its chunk's length — the bodies stand in the buffer at
    /// their places.
    pub open spec fn wf(self) -> bool {
        &&& self.job.part_size > 0
        &&& self.job.concurrency >= 1
        &&& self.buffer@.len() == self.job.total_size
        &&& self.status@.len() == chunk_count(
            self.job.total_size as nat,
            self.job.part_size as nat,
        )
        &&& self.inflight == count_inflight(self.status@)
        &&& self.inflight <= self.job.concurrency
        &&& forall|i: int|
            0 <= i < self.status@.len() && (#[trigger] self.status@[i]) is Done
                ==> self.bodies@.dom().contains(i) && chunk_start(i, self.job.part_size as int)
                + self.bodies@[i].len() <= self.job.total_size
        &&& (self.exact_sized() ==> self.placed())
    }

    /// Whether every chunk is done.
    pub open spec fn spec_finished(self) -> bool {
        forall|i: int| 0 <= i < self.status@.len() ==> (#[trigger] self.status@[i]) is Done
    }

    /// A fresh download: a zeroed buffer and every chunk pending.
    pub fn new(job: DownloadJob) -> (d: Downloader)
        requires
            job.part_size > 0,
            job.concurrency >= 1,
        ensures
            d.wf(),
            d.job == job,
            d.inflight == 0,
            d.buffer@.len() == job.total_size,
            forall|k: int| 0 <= k < job.total_size ==> d.buffer@[k] == 0u8,
            forall|i: int| 0 <= i < d.status@.len() ==> (#[trigger] d.status@[i]) is Pending,
            d.bodies@ == Map::<int, Seq<u8>>::empty(),
    {
        let total = job.total_size;
        let n = num_chunks(total, job.part_size);
        let mut buffer: Vec<u8> = Vec::new();
        while buffer.len() < total
            invariant
                buffer@.len() <= total,
                forall|k: int| 0 <= k < buffer@.len() ==> buffer@[k] == 0u8,
            decreases total - buffer@.len(),
        {
            buffer.push(0u8);
        }
        let mut status: Vec<ChunkState> = Vec::new();
        while status.len() < n
            invariant
                status@.len() <= n,
                forall|i: int| 0 <= i < status@.len() ==> (#[trigger] status@[i]) is Pending,
                count_inflight(status@) == 0,
            decreases n - status@.len(),
        {
            proof {
                assert(status@.push(ChunkState::Pending).drop_last() =~= status@);
            }
            status.push(ChunkState::Pending);
        }
        Downloader { job, buffer, status, inflight: 0, bodies: Ghost(Map::empty()) }
    }

    /// The job's fields are untouched by a step.
    pub open spec fn same_job(self, other: Downloader) -> bool {
        self.job == other.job
    }

    /// Picks the next chunk to request: the first pending one, refused
    /// while the concurrency cap is reached.
    pub fn start_next(&mut self) -> (r: Option<usize>)
        requires
            old(self).wf(),
        ensures
            final(self).wf(),
            final(self).same_job(*old(self)),
            r matches Some(i) ==> {
                &&& 0 <= i < old(self).status@.len()
                &&& old(self).status@[i as int] is Pending
                &&& (forall|j: int| 0 <= j < i ==> !((#[trigger] old(self).status@[j]) is Pending))
                &&& old(self).inflight < old(self).job.concurrency
                &&& final(self).status@ == old(self).status@.update(i as int, ChunkState::InFlight)
                &&& final(self).inflight == old(self).inflight + 1
                &&& final(self).buffer == old(self).buffer
                &&& final(self).bodies == old(self).bodies
            },
            r is None ==> *final(self) == *old(self) && (old(self).inflight >= old(
                self,
            ).job.concurrency || (forall|j: int|
                0 <= j < old(self).status@.len() ==> !((#[trigger] old(self).status@[j])
                    is Pending))),
    {
        if self.inflight >= self.job.concurrency {
            return None;
        }
        let n = self.status.len();
        let mut i: usize = 0;
        while i < n
            invariant
                i <= n,
                n == self.status@.len(),
                *self == *old(self),
                old(self).wf(),
                old(self).inflight < old(self).job.concurrency,
                forall|j: int| 0 <= j < i ==> !((#[trigger] self.status@[j]) is Pending),
            decreases n - i,
        {
            if matches!(self.status[i], ChunkState::Pending) {
                proof {
                    lemma_count_inflight_update(self.status@, i as int, ChunkState::InFlight);
                }
                self.status.set(i, ChunkState::InFlight);
                self.inflight = self.inflight + 1;
                proof {
                    lemma_mark_inflight_preserves_wf(*self, *old(self), i as int);
                }
                return Some(i);
            }
            i = i + 1;
        }
        None
    }

    /// The byte range of one chunk.
    pub fn chunk_bounds(&self, i: usize) -> (r: (usize, usize))
        requires
            self.wf(),
            i < self.status@.len(),
        ensures
            r.0 == chunk_start(i as int, self.job.part_size as int),
            r.1 == chunk_end(i as int, self.job.part_size as int, self.job.total_size as int),
            r.0 < r.1 <= self.job.total_size,
    {
        proof {
            lemma_chunk_layout(
                self.job.part_size as int,
                self.job.total_size as int,
                self.status@.len() as int,
            );
            assert(chunk_start(i as int, self.job.part_size as int) < chunk_end(
                i as int,
                self.job.part_size as int,
                self.job.total_size as int,
            ));
            assert((i + 1) * (self.job.part_size as int) == i * (self.job.part_size as int)
                + self.job.part_size) by (nonlinear_arith);
        }
        let start = i * self.job.part_size;
        let end = if self.job.part_size > self.job.total_size - start {
            self.job.total_size
        } else {
            start + self.job.part_size
        };
        (start, end)
    }

    /// The `Range` header of one chunk's request, an inclusive byte range.
    pub fn range_header(&self, i: usize) -> (s: String)
        requires
            self.wf(),
            i < self.status@.len(),
        ensures
            s@ == "bytes="@ + dec_seq(chunk_start(i as int, self.job.part_size as int)) + "-"@
                + dec_seq(
                chunk_end(i as int, self.job.part_size as int, self.job.total_size as int) - 1,
            ),
    {
        let (start, end) = self.chunk_bounds(i);
        let mut s = String::from_str("bytes=");
        let a = usize_to_string(start);
        s.append(a.as_str());
        s.append("-");
        let b = usize_to_string(end - 1);
        s.append(b.as_str());
        s
    }

    /// Applies one chunk's answer: it must be 206 Partial Content, carry a
    /// `Content-Range` header, and fit the buffer; the body is then written
    /// at the chunk's place and the chunk is done.
    pub fn apply_response(
        &mut self,
        i: usize,
        status_code: u16,
        has_content_range: bool,
        data: &Vec<u8>,
    ) -> (r: Result<(), DownloadError>)
        requires
            old(self).wf(),
            i < old(self).status@.len(),
            old(self).status@[i as int] is InFlight,
        ensures
            final(self).wf(),
            final(self).same_job(*old(self)),
            status_code != 206 ==> (r matches Err(e) && e matches DownloadError::RangeNotSupported(
                st,
            ) && st == status_code && *final(self) == *old(self)),
            status_code == 206 && !has_content_range ==> (r matches Err(e) && e
                matches DownloadError::MissingContentRange && *final(self) == *old(self)),
            status_code == 206 && has_content_range && chunk_start(
                i as int,
                old(self).job.part_size as int,
            ) + data@.len() > old(self).job.total_size ==> (r matches Err(e) && e
                matches DownloadError::DataSizeExceeded && *final(self) == *old(self)),
            status_code == 206 && has_content_range && chunk_start(
                i as int,
                old(self).job.part_size as int,
            ) + data@.len() <= old(self).job.total_size ==> {
                &&& r is Ok
                &&& final(self).status@ == old(self).status@.update(i as int, ChunkState::Done)
                &&& final(self).inflight == old(self).inflight - 1
                &&& final(self).bodies@ == old(self).bodies@.insert(i as int, data@)
                &&& final(self).buffer@.len() == old(self).buffer@.len()
                &&& forall|k: int|
                    0 <= k < old(self).buffer@.len() ==> #[trigger] final(self).buffer@[k] == {
                        let start = chunk_start(i as int, old(self).job.part_size as int);
                        if start <= k < start + data@.len() {
                            data@[k - start]
                        } else {
                            old(self).buffer@[k]
                        }
                    }
            },
    {
        if status_code != 206 {
            return Err(DownloadError::RangeNotSupported(status_code));
        }
        if !has_content_range {
            return Err(DownloadError::MissingContentRange);
        }
        proof {
            lemma_chunk_layout(
                self.job.part_size as int,
                self.job.total_size as int,
                self.status@.len() as int,
            );
            assert(chunk_start(i as int, self.job.part_size as int) < chunk_end(
                i as int,
                self.job.part_size as int,
                self.job.total_size as int,
            ));
        }
        let start = i * self.job.part_size;
        let len = data.len();
        if len > self.job.total_size - start {
            return Err(DownloadError::DataSizeExceeded);
        }
        let ghost buf0 = self.buffer@;
        let mut k: usize = 0;
        while k < len
            invariant
                old(self).wf(),
                k <= len,
                len == data@.len(),
                start + len <= self.buffer@.len(),
                self.buffer@.len() == old(self).job.total_size,
                self.buffer@.len() == buf0.len(),
                forall|m: int| 0 <= m < k ==> self.buffer@[start + m] == data@[m],
                forall|m: int|
                    0 <= m < buf0.len() && !(start <= m < start + k) ==> #[trigger] self.buffer@[m]
                        == buf0[m],
                self.status == old(self).status,
                self.inflight == old(self).inflight,
                self.bodies == old(self).bodies,
                self.job == old(self).job,
            decreases len - k,
        {
            self.buffer.set(start + k, data[k]);
            k = k + 1;
        }
        proof {
            lemma_count_inflight_update(self.status@, i as int, ChunkState::Done);
            lemma_count_inflight_nonneg(self.status@.update(i as int, ChunkState::Done));
        }
        self.status.set(i, ChunkState::Done);
        self.inflight = self.inflight - 1;
        self.bodies = Ghost(self.bodies@.insert(i as int, data@));
        proof {
            self.lemma_apply_preserves_wf(*old(self), i as int, data@);
        }
        Ok(())
    }

    /// The write of one exact-sized body keeps every other done chunk in
    /// its place: the chunk ranges are disjoint.
    proof fn lemma_apply_preserves_wf(self, prev: Downloader, i: int, body: Seq<u8>)
        requires
            prev.wf(),
            0 <= i < prev.status@.len(),
            prev.status@[i] is InFlight,
            chunk_start(i, prev.job.part_size as int) + body.len() <= prev.job.total_size,
            self.job == prev.job,
            self.status@ == prev.status@.update(i, ChunkState::Done),
            self.inflight == count_inflight(self.status@),
            self.inflight <= self.job.concurrency,
            self.bodies@ == prev.bodies@.insert(i, body),
            self.buffer@.len() == prev.buffer@.len(),
            forall|k: int|
                0 <= k < prev.buffer@.len() ==> #[trigger] self.buffer@[k] == {
                    let start = chunk_start(i, prev.job.part_size as int);
                    if start <= k < start + body.len() {
                        body[k - start]
                    } else {
                        prev.buffer@[k]
                    }
                },
        ensures
            self.wf(),
    {
        let part = self.job.part_size as int;
        let total = self.job.total_size as int;
        let n = self.status@.len() as int;
        lemma_chunk_layout(part, total, n);
        assert(prev.status@.len() == n);
        assert(prev.status@.update(i, ChunkState::Done)[i] is Done);
        assert(self.status@[i] is Done);
        assert(prev.bodies@.insert(i, body)[i] == body);
        assert(self.bodies@[i] == body);
        assert(prev.bodies@.insert(i, body).dom() == prev.bodies@.dom().insert(i));
        assert(self.bodies@.dom().contains(i));
        assert forall|j: int|
            0 <= j < n && self.status@[j] is Done && j != i implies prev.status@[j] is Done
            && #[trigger] self.bodies@[j] == prev.bodies@[j] && prev.bodies@.dom().contains(j)
            && chunk_start(j, part) + prev.bodies@[j].len() <= total by {
            assert(prev.status@.update(i, ChunkState::Done)[j] == prev.status@[j]);
            assert(prev.bodies@.insert(i, body)[j] == prev.bodies@[j]);
            assert(prev.bodies@.dom().contains(j) && chunk_start(j, part) + (
            prev.bodies@[j]).len() <= total);
        }
        assert forall|j: int|
            0 <= j < n && self.status@[j] is Done implies self.bodies@.dom().contains(j)
            && chunk_start(j, part) + (#[trigger] self.bodies@[j]).len() <= total by {
            if j != i {
                assert(self.bodies@.dom() == prev.bodies@.dom().insert(i));
            }
        }
        if self.exact_sized() {
            assert(body.len() == chunk_len(i, part, total));
            assert forall|j: int| 0 <= j < n && self.status@[j] is Done implies self.buffer@.subrange(
                chunk_start(j, part),
                chunk_end(j, part, total),
            ) == (#[trigger] self.bodies@[j]) by {
                if j == i {
                    assert forall|m: int| 0 <= m < body.len() implies self.buffer@.subrange(
                        chunk_start(i, part),
                        chunk_end(i, part, total),
                    )[m] == body[m] by {
                        assert(self.buffer@[chunk_start(i, part) + m] == body[m]);
                    }
                    assert(self.buffer@.subrange(chunk_start(i, part), chunk_end(i, part, total))
                        =~= body);
                } else {
                    // the old body was exact too, so it was already placed,
                    // and the new write is outside its range
                    assert(prev.status@[j] is Done);
                    assert(prev.exact_sized()) by {
                        assert forall|j2: int|
                            0 <= j2 < n && prev.status@[j2] is Done implies (
                        #[trigger] prev.bodies@[j2]).len() == chunk_len(j2, part, total) by {
                            assert(j2 != i);
                            assert(prev.status@.update(i, ChunkState::Done)[j2]
                                == prev.status@[j2]);
                            assert(self.status@[j2] is Done);
                            assert(prev.bodies@.insert(i, body)[j2] == prev.bodies@[j2]);
                            assert(self.bodies@[j2].len() == chunk_len(j2, part, total));
                        }
                    }
                    assert(prev.buffer@.subrange(chunk_start(j, part), chunk_end(j, part, total))
                        == prev.bodies@[j]);
                    assert((i + 1) * part == i * part + part && (j + 1) * part == j * part + part
                        && (i < j ==> (i + 1) * part <= j * part) && (j < i ==> (j + 1) * part <= i
                        * part)) by (nonlinear_arith)
                        requires
                            part > 0,
                            0 <= i < n,
                            0 <= j < n,
                            i != j,
                    ;
                    assert forall|m: int|
                        chunk_start(j, part) <= m < chunk_end(j, part, total) implies #[trigger] self.buffer@[m]
                        == prev.buffer@[m] by {
                        assert(!(chunk_start(i, part) <= m < chunk_start(i, part) + body.len()));
                    }
                    assert(self.buffer@.subrange(chunk_start(j, part), chunk_end(j, part, total))
                        =~= prev.buffer@.subrange(chunk_start(j, part), chunk_end(j, part, total)));
                }
            }
        }
    }

    /// Whether every chunk is done.
    pub fn finished(&self) -> (r: bool)
        ensures
            r == self.spec_finished(),
    {
        let n = self.status.len();
        let mut i: usize = 0;
        while i < n
            invariant
                i <= n,
                n == self.status@.len(),
                forall|j: int| 0 <= j < i ==> (#[trigger] self.status@[j]) is Done,
            decreases n - i,
        {
            if !matches!(self.status[i], ChunkState::Done) {
                return false;
            }
            i = i + 1;
        }
        true
    }

    /// The assembled body, once every chunk is done.
    pub fn take_result(self) -> (r: Vec<u8>)
        requires
            self.wf(),
            self.spec_finished(),
        ensures
            r@ == self.buffer@,
            r@.len() == self.job.total_size,
    {
        self.buffer
    }
}

/// Marking a pending chunk as in flight reaches a sound state: no chunk
/// becomes done and the cap still holds.
proof fn lemma_mark_inflight_preserves_wf(post: Downloader, prev: Downloader, i: int)
    requires
        prev.wf(),
        0 <= i < prev.status@.len(),
        prev.status@[i] is Pending,
        prev.inflight < prev.job.concurrency,
        post.job == prev.job,
        post.buffer == prev.buffer,
        post.bodies == prev.bodies,
        post.status@ == prev.status@.update(i, ChunkState::InFlight),
        post.inflight == prev.inflight + 1,
    ensures
        post.wf(),
{
    let part = post.job.part_size as int;
    let total = post.job.total_size as int;
    lemma_count_inflight_update(prev.status@, i, ChunkState::InFlight);
    assert(post.status@.len() == prev.status@.len());
    assert forall|j: int| 0 <= j < post.status@.len() && post.status@[j] is Done implies post.bodies@.dom().contains(
        j,
    ) && chunk_start(j, part) + (#[trigger] post.bodies@[j]).len() <= total by {
        assert(post.status@[j] == prev.status@.update(i, ChunkState::InFlight)[j]);
        assert(prev.status@[j] is Done);
        assert(prev.bodies@.dom().contains(j) && chunk_start(j, part) + (prev.bodies@[j]).len()
            <= total);
        assert(post.bodies@[j] == prev.bodies@[j]);
    }
    if post.exact_sized() {
        assert(prev.exact_sized()) by {
            assert forall|j: int|
                0 <= j < prev.status@.len() && prev.status@[j] is Done implies (
            #[trigger] prev.bodies@[j]).len() == chunk_len(j, part, total) by {
                assert(j != i);
                assert(post.status@[j] == prev.status@.update(i, ChunkState::InFlight)[j]);
                assert(post.status@[j] is Done);
                assert(post.bodies@[j] == prev.bodies@[j]);
            }
        }
        assert forall|j: int|
            0 <= j < post.status@.len() && post.status@[j] is Done implies post.buffer@.subrange(
            chunk_start(j, part),
            chunk_end(j, part, total),
        ) == (#[trigger] post.bodies@[j]) by {
            assert(post.status@[j] == prev.status@.update(i, ChunkState::InFlight)[j]);
            assert(prev.status@[j] is Done);
            assert(prev.buffer@.subrange(chunk_start(j, part), chunk_end(j, part, total))
                == prev.bodies@[j]);
            assert(post.bodies@[j] == prev.bodies@[j]);
        }
    }
}

/// At any reachable state of a download, the number of range requests in
/// flight is at most the concurrency cap.
pub proof fn lemma_inflight_bounded(d: Downloader)
    requires
        d.wf(),
    ensures
        d.inflight <= d.job.concurrency,
{
}

/// When the total is not a multiple of the part size, the final chunk is
/// shorter than a part — the grid adds no padding.
pub proof fn lemma_last_chunk_short(part: int, total: int, n: int)
    requires
        part > 0,
        total > 0,
        total % part != 0,
        n == chunk_count(total as nat, part as nat),
    ensures
        n > 0,
        chunk_len(n - 1, part, total) == total - (n - 1) * part,
        chunk_len(n - 1, part, total) < part,
{
    lemma_chunk_layout(part, total, n);
    assert(n > 0);
    assert(chunk_end(n - 1, part, total) == total);
    assert((n - 1) * part < total && total < n * part) by (nonlinear_arith)
        requires
            part > 0,
            total > 0,
            total % part != 0,
            n == (total + part - 1) / part,
    ;
    assert(n * part == (n - 1) * part + part) by (nonlinear_arith);
}

/// The concatenation of the first `k` chunk bodies, in chunk order.
pub open spec fn concat_bodies(bodies: Map<int, Seq<u8>>, k: int) -> Seq<u8>
    decreases k,
{
    if k <= 0 {
        Seq::empty()
    } else {
        concat_bodies(bodies, k - 1) + bodies[k - 1]
    }
}

proof fn lemma_prefix_is_concat(d: Downloader, k: int)
    requires
        d.wf(),
        d.spec_finished(),
        d.exact_sized(),
        0 <= k <= d.status@.len(),
    ensures
        d.buffer@.subrange(
            0,
            if k == 0 {
                0int
            } else {
                chunk_end(k - 1, d.job.part_size as int, d.job.total_size as int)
            },
        ) =~= concat_bodies(d.bodies@, k),
    decreases k,
{
    let part = d.job.part_size as int;
    let total = d.job.total_size as int;
    let n = d.status@.len() as int;
    lemma_chunk_layout(part, total, n);
    if k == 0 {
        assert(d.buffer@.subrange(0, 0) =~= Seq::<u8>::empty());
    } else {
        lemma_prefix_is_concat(d, k - 1);
        let prev_end: int = if k == 1 {
            0
        } else {
            chunk_end(k - 2, part, total)
        };
        assert(prev_end == chunk_start(k - 1, part)) by {
            if k == 1 {
                assert(chunk_start(0, part) == 0);
            }
        }
        assert(d.buffer@.subrange(0, chunk_end(k - 1, part, total)) =~= d.buffer@.subrange(
            0,
            prev_end,
        ) + d.buffer@.subrange(chunk_start(k - 1, part), chunk_end(k - 1, part, total)));
        assert(d.status@[k - 1] is Done);
        assert(d.buffer@.subrange(chunk_start(k - 1, part), chunk_end(k - 1, part, total))
            == d.bodies@[k - 1]);
    }
}

/// For any successful download whose every chunk answered with exactly its
/// chunk's length, the assembled buffer is byte-equal to the concatenation
/// of the chunk bodies in chunk order, and its length is exactly the total
/// size — including a shorter final chunk when the total is not a multiple
/// of the part size, and the empty body when the total is zero.
pub proof fn lemma_result_is_concat(d: Downloader)
    requires
        d.wf(),
        d.spec_finished(),
        d.exact_sized(),
    ensures
        d.buffer@ =~= concat_bodies(d.bodies@, d.status@.len() as int),
        d.buffer@.len() == d.job.total_size,
{
    let part = d.job.part_size as int;
    let total = d.job.total_size as int;
    let n = d.status@.len() as int;
    lemma_chunk_layout(part, total, n);
    lemma_prefix_is_concat(d, n);
    if n == 0 {
        assert(d.buffer@.subrange(0, 0) =~= d.buffer@);
    } else {
        assert(chunk_end(n - 1, part, total) == total);
        assert(d.buffer@.subrange(0, total) =~= d.buffer@);
    }
}

} // verus!

//! The decisions of uploads: the budget id of an object, and how a file is
//! cut into separately stored chunks.

use crate::text::{concat2, decimal, decimal_string};
use vstd::prelude::*;

verus! {

/// The id under which an upload reserves its budget:
/// `upload:{bucket}/{object_key}`.
pub fn upload_reservation_id(bucket: &str, object_key: &str) -> (r: String)
    ensures
        r@ == "upload:"@ + bucket@ + "/"@ + object_key@,
{
    let r = concat2("upload:", bucket);
    let r = concat2(r.as_str(), "/");
    concat2(r.as_str(), object_key)
}

/// The number of chunks of `chunk_size` bytes that hold `total_len` bytes.
pub open spec fn chunks_for(total_len: int, chunk_size: int) -> int {
    (total_len + chunk_size - 1) / chunk_size
}

/// What a chunked upload saves to resume after a restart.
#[derive(Clone, Copy, Debug, PartialEq, Eq, Structural)]
pub struct UploadChunkedProgress {
    /// The length of the file, once measured.
    pub len: Option<u64>,
    /// The chunks stored so far: those numbered below this.
    pub parts_uploaded: u64,
}

/// One chunk to store: its number, and the window of the file it holds.
#[derive(Clone, Copy, Debug, PartialEq, Eq, Structural)]
pub struct ChunkPlan {
    pub index: u64,
    pub offset: u64,
    pub len: u64,
}

/// What a chunked upload does next.
#[derive(Clone, Copy, Debug, PartialEq, Eq, Structural)]
pub enum ChunkedStep {
    /// Measure the file and record its length.
    MeasureFile,
    /// Store this chunk.
    Upload(ChunkPlan),
    /// Every chunk is stored.
    Done,
}

impl UploadChunkedProgress {
    /// The progress of an upload that has not begun.
    pub fn fresh() -> (r: UploadChunkedProgress)
        ensures
            r.len is None,
            r.parts_uploaded == 0,
    {
        UploadChunkedProgress { len: None, parts_uploaded: 0 }
    }

    /// Records the length of the file; the chunks stored stay counted.
    pub fn record_len(&mut self, len: u64)
        ensures
            final(self).len == Some(len),
            final(self).parts_uploaded == old(self).parts_uploaded,
    {
        self.len = Some(len);
    }

    /// Records that one more chunk is stored.
    pub fn record_part_uploaded(&mut self)
        requires
            old(self).parts_uploaded < u64::MAX,
        ensures
            final(self).parts_uploaded == old(self).parts_uploaded + 1,
            final(self).len == old(self).len,
    {
        self.parts_uploaded = self.parts_uploaded + 1;
    }

    /// The next step with chunks of `chunk_size` bytes: measure the file
    /// while its length is unknown; then store chunk `parts_uploaded`, the
    /// window of `min(chunk_size, rest)` bytes at `parts_uploaded *
    /// chunk_size`, until every chunk is stored.
    pub fn next_step(&self, chunk_size: u64) -> (r: ChunkedStep)
        requires
            chunk_size > 0,
        ensures
            self.len is None ==> r == ChunkedStep::MeasureFile,
            self.len matches Some(total) ==> {
                if self.parts_uploaded >= chunks_for(total as int, chunk_size as int) {
                    r == ChunkedStep::Done
                } else {
                    let offset = self.parts_uploaded * chunk_size;
                    r == ChunkedStep::Upload(
                        ChunkPlan {
                            index: self.parts_uploaded,
                            offset: offset as u64,
                            len: (if chunk_size <= total - offset {
                                chunk_size as int
                            } else {
                                total - offset
                            }) as u64,
                        },
                    )
                }
            },
    {
        let total = match self.len {
            None => {
                return ChunkedStep::MeasureFile;
            },
            Some(total) => total,
        };
        let count = chunk_count(total, chunk_size);
        if self.parts_uploaded >= count {
            return ChunkedStep::Done;
        }
        proof {
            lemma_chunk_within(total as int, chunk_size as int, self.parts_uploaded as int);
        }
        let offset = self.parts_uploaded * chunk_size;
        let rest = total - offset;
        let len = if chunk_size <= rest {
            chunk_size
        } else {
            rest
        };
        ChunkedStep::Upload(ChunkPlan { index: self.parts_uploaded, offset, len })
    }
}

impl Default for UploadChunkedProgress {
    fn default() -> (r: UploadChunkedProgress)
        ensures
            r.len is None,
            r.parts_uploaded == 0,
    {
        UploadChunkedProgress::fresh()
    }
}

/// A chunk numbered below the chunk count starts inside the file.
proof fn lemma_chunk_within(total: int, chunk_size: int, i: int)
    requires
        total >= 0,
        chunk_size > 0,
        0 <= i < chunks_for(total, chunk_size),
    ensures
        i * chunk_size < total,
{
    assert(i * chunk_size < total) by (nonlinear_arith)
        requires
            total >= 0,
            chunk_size > 0,
            0 <= i,
            i < (total + chunk_size - 1) / chunk_size,
    ;
}

/// The number of chunks of `chunk_size` bytes that hold `total_len` bytes.
pub fn chunk_count(total_len: u64, chunk_size: u64) -> (r: u64)
    requires
        chunk_size > 0,
    ensures
        r == chunks_for(total_len as int, chunk_size as int),
{
    let q = total_len / chunk_size;
    let r = if total_len % chunk_size == 0 {
        q
    } else {
        proof {
            assert(q < u64::MAX) by (nonlinear_arith)
                requires
                    q == total_len / chunk_size,
                    total_len % chunk_size != 0,
                    chunk_size > 0,
            ;
        }
        q + 1
    };
    proof {
        assert(r == chunks_for(total_len as int, chunk_size as int)) by (nonlinear_arith)
            requires
                chunk_size > 0,
                q == total_len / chunk_size,
                total_len % chunk_size == 0 ==> r == q,
                total_len % chunk_size != 0 ==> r == q + 1,
        ;
    }
    r
}

/// The key of chunk `index` of an object: `{object_key}/{index}`.
pub fn chunk_object_key(object_key: &str, index: u64) -> (r: String)
    ensures
        r@ == object_key@ + "/"@ + decimal(index as nat),
{
    let r = concat2(object_key, "/");
    let n = decimal_string(index);
    concat2(r.as_str(), n.as_str())
}

/// The tags of a chunk:
/// `file={object_key}&total_len={total_len}&chunks_count={chunks_count}&chunk_size={chunk_size}&chunk_number={chunk_number}`.
pub fn chunk_tagging(
    object_key: &str,
    total_len: u64,
    chunks_count: u64,
    chunk_size: u64,
    chunk_number: u64,
) -> (r: String)
    ensures
        r@ == "file="@ + object_key@ + "&total_len="@ + decimal(total_len as nat) + "&chunks_count="@
            + decimal(chunks_count as nat) + "&chunk_size="@ + decimal(chunk_size as nat)
            + "&chunk_number="@ + decimal(chunk_number as nat),
{
    let r = concat2("file=", object_key);
    let r = concat2(r.as_str(), "&total_len=");
    let n = decimal_string(total_len);
    let r = concat2(r.as_str(), n.as_str());
    let r = concat2(r.as_str(), "&chunks_count=");
    let n = decimal_string(chunks_count);
    let r = concat2(r.as_str(), n.as_str());
    let r = concat2(r.as_str(), "&chunk_size=");
    let n = decimal_string(chunk_size);
    let r = concat2(r.as_str(), n.as_str());
    let r = concat2(r.as_str(), "&chunk_number=");
    let n = decimal_string(chunk_number);
    concat2(r.as_str(), n.as_str())
}

} // verus!

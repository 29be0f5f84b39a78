use vstd::prelude::*;
use crate::decimal::{digits_value, is_u64_text, parse_u64, unsigned_body};
use crate::error::StageError;
use crate::progress::TransferProgress;

verus! {

/// The sum of a list of lengths.
pub open spec fn sum_of(s: Seq<nat>) -> nat
    decreases s.len(),
{
    if s.len() == 0 {
        0
    } else {
        sum_of(s.drop_last()) + s.last()
    }
}

/// The length that a download response declares, from its `content-length`
/// header: an error when the header is absent or is not a 64-bit number.
pub fn declared_length(header: Option<&str>) -> (r: Result<u64, StageError>)
    ensures
        header is None ==> r == Err::<u64, StageError>(StageError::MissingContentLength),
        (header is Some && !is_u64_text(header->Some_0@)) ==> r == Err::<u64, StageError>(
            StageError::MalformedContentLength,
        ),
        (header is Some && is_u64_text(header->Some_0@)) ==> (r is Ok && r->Ok_0 as nat
            == digits_value(unsigned_body(header->Some_0@))),
{
    match header {
        None => Err(StageError::MissingContentLength),
        Some(h) => match parse_u64(h) {
            Some(n) => Ok(n),
            None => Err(StageError::MalformedContentLength),
        },
    }
}

/// Counts the bytes of a download against its declared length. `chunks`
/// records the length of every chunk taken, in order.
pub struct DownloadTracker {
    pub total_bytes: u64,
    pub received_bytes: u64,
    pub chunks: Ghost<Seq<nat>>,
}

impl DownloadTracker {
    pub open spec fn wf(&self) -> bool {
        &&& self.received_bytes == sum_of(self.chunks@)
        &&& self.received_bytes <= self.total_bytes
    }

    /// A download of `total_bytes` bytes, none of them received yet.
    pub fn new(total_bytes: u64) -> (r: Self)
        ensures
            r.wf(),
            r.total_bytes == total_bytes,
            r.received_bytes == 0,
            r.chunks@ == Seq::<nat>::empty(),
    {
        DownloadTracker { total_bytes, received_bytes: 0, chunks: Ghost(Seq::empty()) }
    }

    /// Takes a chunk of `len` bytes and gives the progress after it. A chunk
    /// that would go past the declared length is refused and changes nothing.
    pub fn on_chunk(&mut self, len: u64) -> (r: Result<TransferProgress, StageError>)
        requires
            old(self).wf(),
        ensures
            final(self).wf(),
            final(self).total_bytes == old(self).total_bytes,
            len <= old(self).total_bytes - old(self).received_bytes ==> {
                &&& final(self).chunks@ == old(self).chunks@.push(len as nat)
                &&& final(self).received_bytes == old(self).received_bytes + len
                &&& r is Ok
                &&& r->Ok_0.current_bytes == final(self).received_bytes
                &&& r->Ok_0.total_bytes == old(self).total_bytes
            },
            len > old(self).total_bytes - old(self).received_bytes ==> {
                &&& *final(self) == *old(self)
                &&& r == Err::<TransferProgress, StageError>(
                    StageError::BodyExceedsLength { declared: old(self).total_bytes },
                )
            },
    {
        if len > self.total_bytes - self.received_bytes {
            return Err(StageError::BodyExceedsLength { declared: self.total_bytes });
        }
        self.received_bytes = self.received_bytes + len;
        self.chunks = Ghost(self.chunks@.push(len as nat));
        assert(self.chunks@.drop_last() =~= old(self).chunks@);
        Ok(TransferProgress::new(self.total_bytes, self.received_bytes))
    }

    /// Ends the download: it succeeded only if every declared byte came.
    pub fn finish(&self) -> (r: Result<u64, StageError>)
        requires
            self.wf(),
        ensures
            (r is Ok) <==> sum_of(self.chunks@) == self.total_bytes,
            (r is Ok) ==> r->Ok_0 == self.total_bytes,
            (r is Err) ==> r->Err_0 == (StageError::LengthMismatch {
                declared: self.total_bytes,
                received: self.received_bytes,
            }),
    {
        if self.received_bytes == self.total_bytes {
            Ok(self.received_bytes)
        } else {
            Err(StageError::LengthMismatch { declared: self.total_bytes, received: self.received_bytes })
        }
    }
}

/// Counts the bytes of an upload as the file is read. The total is the
/// file's size when the upload began and never changes.
pub struct UploadCounter {
    pub total_bytes: u64,
    pub sent_bytes: u64,
}

impl UploadCounter {
    pub fn new(file_size: u64) -> (r: Self)
        ensures
            r.total_bytes == file_size,
            r.sent_bytes == 0,
    {
        UploadCounter { total_bytes: file_size, sent_bytes: 0 }
    }

    /// Takes a read of `len` bytes and gives the progress after it.
    pub fn on_read(&mut self, len: u64) -> (r: TransferProgress)
        ensures
            final(self).total_bytes == old(self).total_bytes,
            final(self).sent_bytes as int == if old(self).sent_bytes + len > u64::MAX {
                u64::MAX as int
            } else {
                old(self).sent_bytes + len
            },
            final(self).sent_bytes >= old(self).sent_bytes,
            r.current_bytes == final(self).sent_bytes,
            r.total_bytes == old(self).total_bytes,
    {
        self.sent_bytes = self.sent_bytes.saturating_add(len);
        TransferProgress::new(self.total_bytes, self.sent_bytes)
    }
}

/// The progress of a download never goes back: after the first `i` chunks
/// no more bytes are counted than after the first `j`, for `i <= j`.
pub proof fn lemma_download_progress_non_decreasing(chunks: Seq<nat>, i: int, j: int)
    requires
        0 <= i <= j <= chunks.len(),
    ensures
        sum_of(chunks.subrange(0, i)) <= sum_of(chunks.subrange(0, j)),
    decreases j - i,
{
    if i < j {
        lemma_download_progress_non_decreasing(chunks, i, j - 1);
        assert(chunks.subrange(0, j).drop_last() =~= chunks.subrange(0, j - 1));
    }
}

} // verus!

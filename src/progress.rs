use vstd::prelude::*;

verus! {

/// Bytes moved so far in one download or upload, against the transfer's total.
pub struct TransferProgress {
    pub total_bytes: u64,
    pub current_bytes: u64,
}

impl TransferProgress {
    pub(crate) fn new(total: u64, current: u64) -> (r: Self)
        ensures
            r.total_bytes == total,
            r.current_bytes == current,
    {
        TransferProgress { total_bytes: total, current_bytes: current }
    }

    pub fn current_bytes(&self) -> (r: u64)
        ensures
            r == self.current_bytes,
    {
        self.current_bytes
    }

    pub fn total_bytes(&self) -> (r: u64)
        ensures
            r == self.total_bytes,
    {
        self.total_bytes
    }
}

} // verus!

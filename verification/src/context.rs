//! The allocator type and its counter operations.

use vstd::prelude::*;

verus! {

/// Identifier of a logical time-series family (partition) within the engine.
pub type TseriesFamilyId = u32;

/// Mathematical view of the allocator: the four counters as unbounded
/// natural numbers.
pub struct AllocatorModel {
    /// Next unused file/log identifier.
    pub file_id: nat,
    /// Next unused memory-table sequence number.
    pub mem_seq: nat,
    /// Highest sequence number known to be durably applied.
    pub last_seq: nat,
    /// Next unused family identifier.
    pub tsfamily_id: nat,
}

impl AllocatorModel {
    /// The model of a freshly created allocator: every counter at zero.
    pub open spec fn fresh() -> AllocatorModel {
        AllocatorModel { file_id: 0, mem_seq: 0, last_seq: 0, tsfamily_id: 0 }
    }

    /// This model with the file-id counter replaced and every other counter kept.
    pub open spec fn with_file_id(self, v: nat) -> AllocatorModel {
        AllocatorModel {
            file_id: v,
            mem_seq: self.mem_seq,
            last_seq: self.last_seq,
            tsfamily_id: self.tsfamily_id,
        }
    }

    /// This model with the memory-sequence counter replaced and every other counter kept.
    pub open spec fn with_mem_seq(self, v: nat) -> AllocatorModel {
        AllocatorModel {
            file_id: self.file_id,
            mem_seq: v,
            last_seq: self.last_seq,
            tsfamily_id: self.tsfamily_id,
        }
    }

    /// This model with the last-applied-sequence marker replaced and every other counter kept.
    pub open spec fn with_last_seq(self, v: nat) -> AllocatorModel {
        AllocatorModel {
            file_id: self.file_id,
            mem_seq: self.mem_seq,
            last_seq: v,
            tsfamily_id: self.tsfamily_id,
        }
    }

    /// This model with the family-id counter replaced and every other counter kept.
    pub open spec fn with_tsfamily_id(self, v: nat) -> AllocatorModel {
        AllocatorModel {
            file_id: self.file_id,
            mem_seq: self.mem_seq,
            last_seq: self.last_seq,
            tsfamily_id: v,
        }
    }

    /// The model after a rebase past watermark `w`: the file-id counter is
    /// raised to `w + 1` when it was not already above `w`, and is untouched
    /// otherwise. It never decreases.
    pub open spec fn rebased_past(self, w: nat) -> AllocatorModel {
        if self.file_id <= w {
            self.with_file_id(w + 1)
        } else {
            self
        }
    }
}

/// A process-wide allocator of monotonically increasing identifiers and
/// sequence numbers for a storage engine. It holds four independent
/// counters: the file/log identifier, the memory-table sequence number,
/// the last durably applied sequence number, and the family identifier.
///
/// One instance exists per engine, created with all counters at zero or
/// restored through the setters before any identifier is issued.
#[derive(Debug)]
pub struct GlobalContext {
    file_id: u64,
    mem_seq: u64,
    last_seq: u64,
    tsfamily_id: u32,
}

impl View for GlobalContext {
    type V = AllocatorModel;

    closed spec fn view(&self) -> AllocatorModel {
        AllocatorModel {
            file_id: self.file_id as nat,
            mem_seq: self.mem_seq as nat,
            last_seq: self.last_seq as nat,
            tsfamily_id: self.tsfamily_id as nat,
        }
    }
}

impl GlobalContext {
    /// Creates an allocator with every counter at zero.
    pub fn new() -> (ctx: Self)
        ensures
            ctx@ == AllocatorModel::fresh(),
    {
        Self { file_id: 0, mem_seq: 0, last_seq: 0, tsfamily_id: 0 }
    }

    /// Returns the current file-id counter without consuming it.
    pub fn file_id(&self) -> (id: u64)
        ensures
            id == self@.file_id,
    {
        self.file_id
    }

    /// Issues the next file/log identifier: returns the current counter
    /// value and advances the counter by one, leaving the other counters
    /// untouched.
    ///
    /// Counter wraparound is treated as unreachable in the engine's
    /// lifetime, so the counter must not already be at its maximum.
    pub fn file_id_next(&mut self) -> (id: u64)
        requires
            old(self)@.file_id < u64::MAX,
        ensures
            id == old(self)@.file_id,
            final(self)@ == old(self)@.with_file_id(old(self)@.file_id + 1),
    {
        let id = self.file_id;
        self.file_id = self.file_id + 1;
        id
    }

    /// Issues the next memory-table sequence number: returns the current
    /// counter value and advances the counter by one, leaving the other
    /// counters untouched.
    ///
    /// Counter wraparound is treated as unreachable in the engine's
    /// lifetime, so the counter must not already be at its maximum.
    pub fn mem_seq_next(&mut self) -> (sequence: u64)
        requires
            old(self)@.mem_seq < u64::MAX,
        ensures
            sequence == old(self)@.mem_seq,
            final(self)@ == old(self)@.with_mem_seq(old(self)@.mem_seq + 1),
    {
        let sequence = self.mem_seq;
        self.mem_seq = self.mem_seq + 1;
        sequence
    }

    /// Returns the last-applied-sequence marker without changing it.
    pub fn last_seq(&self) -> (sequence: u64)
        ensures
            sequence == self@.last_seq,
    {
        self.last_seq
    }

    /// Returns the current family-id counter without consuming it.
    pub fn tsfamily_id(&self) -> (id: TseriesFamilyId)
        ensures
            id == self@.tsfamily_id,
    {
        self.tsfamily_id
    }

    /// Issues the next family identifier: returns the current counter value
    /// and advances the counter by one, leaving the other counters untouched.
    ///
    /// Counter wraparound is treated as unreachable in the engine's
    /// lifetime, so the counter must not already be at its maximum.
    pub fn tsfamily_id_next(&mut self) -> (id: TseriesFamilyId)
        requires
            old(self)@.tsfamily_id < u32::MAX,
        ensures
            id == old(self)@.tsfamily_id,
            final(self)@ == old(self)@.with_tsfamily_id(old(self)@.tsfamily_id + 1),
    {
        let id = self.tsfamily_id;
        self.tsfamily_id = self.tsfamily_id + 1;
        id
    }

    /// Reserves a block of `n` consecutive file/log identifiers: returns the
    /// current counter value and advances the counter by `n`, leaving the
    /// other counters untouched. The reserved identifiers are the returned
    /// value and the `n - 1` values after it.
    ///
    /// The block must fit below the counter's maximum.
    pub fn fetch_add_log_seq(&mut self, n: u64) -> (start: u64)
        requires
            old(self)@.file_id + n <= u64::MAX,
        ensures
            start == old(self)@.file_id,
            final(self)@ == old(self)@.with_file_id((old(self)@.file_id + n) as nat),
    {
        let start = self.file_id;
        self.file_id = self.file_id + n;
        start
    }

    /// Overwrites the last-applied-sequence marker, leaving the other
    /// counters untouched.
    pub fn set_last_seq(&mut self, v: u64)
        ensures
            final(self)@ == old(self)@.with_last_seq(v as nat),
    {
        self.last_seq = v;
    }

    /// Overwrites the file-id counter, leaving the other counters untouched.
    /// Meant for restoring persisted state before identifiers are issued.
    pub fn set_file_id(&mut self, v: u64)
        ensures
            final(self)@ == old(self)@.with_file_id(v as nat),
    {
        self.file_id = v;
    }

    /// Overwrites the family-id counter, leaving the other counters
    /// untouched. Meant for restoring persisted state before identifiers
    /// are issued.
    pub fn set_tsfamily_id(&mut self, v: TseriesFamilyId)
        ensures
            final(self)@ == old(self)@.with_tsfamily_id(v as nat),
    {
        self.tsfamily_id = v;
    }

    /// Rebases the file-id counter past the watermark `v`: after the call
    /// every subsequently issued file/log identifier is strictly greater
    /// than `v`. The counter never decreases, and it is untouched when it
    /// is already above the watermark. The other counters are untouched.
    ///
    /// When the counter must be raised, `v + 1` has to fit in the counter;
    /// wraparound is treated as unreachable in the engine's lifetime.
    pub fn mark_log_number_used(&mut self, v: u64)
        requires
            old(self)@.file_id <= v ==> v < u64::MAX,
        ensures
            final(self)@ == old(self)@.rebased_past(v as nat),
            final(self)@.file_id > v,
            final(self)@.file_id >= old(self)@.file_id,
    {
        if self.file_id <= v {
            self.file_id = v + 1;
        }
    }
}

impl Default for GlobalContext {
    /// Creates an allocator with every counter at zero, as `new` does.
    fn default() -> (ctx: Self)
        ensures
            ctx@ == AllocatorModel::fresh(),
    {
        GlobalContext::new()
    }
}

} // verus!

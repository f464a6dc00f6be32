//! An identity and sequence allocator for a storage engine.
//!
//! A single [`GlobalContext`] per engine hands out monotonically increasing
//! file/log identifiers, memory-table sequence numbers and family identifiers,
//! tracks the last durably applied sequence number, and offers a recovery
//! rebase that advances the file-id counter past a watermark without ever
//! decreasing it.

pub mod context;
pub mod laws;

pub use context::AllocatorModel;
pub use context::GlobalContext;
pub use context::TseriesFamilyId;

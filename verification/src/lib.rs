//! A terminal task tracker's verified core: a line codec for the two-section
//! task file, a task store with per-section selection cursors, an
//! immediate-mode frame painter, and the interaction-loop state machine.
//!
//! Terminal and file I/O live outside this crate; everything here works on
//! plain values and carries a contract.

pub mod codec;
pub mod store;
pub mod ui;

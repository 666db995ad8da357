//! One-way state synchronisation from a server to its clients.
//!
//! The server holds the authoritative value of each named signal. When a value
//! changes it sends a JSON patch, wrapped in an envelope that names the signal,
//! over an event stream. A client keeps one cell per signal it has asked for and
//! applies the patches to it in the order of their arrival; patches for a signal
//! that no cell exists for yet are kept and applied when the cell is created.
//!
//! The library holds the protocol: the envelope, the registry of cells, the
//! buffer of early patches and the dispatcher. Opening the event stream and
//! presenting the cells to a user interface is left to the caller, which hands
//! each event of the stream to an [`context::SseContext`].

pub mod context;
pub mod envelope;
pub mod json;
pub mod laws;
pub mod name_map;
pub mod patch;
pub mod pending;
pub mod registry;

pub use crate::context::create_sse_signal;
pub use crate::context::create_sse_signal_local;
pub use crate::context::provide_sse;
pub use crate::envelope::ServerSignalUpdate;

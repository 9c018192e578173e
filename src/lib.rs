//! The logic of the arcdps addon boundary, verified: how each event slot of the
//! capability table is chosen, how the load step selects the normal or the error
//! table, how raw host arguments are marshalled into safe values, how the host's
//! functions are resolved, and how the unofficial extras subscription is negotiated.
//!
//! Raw pointers and calling conventions stay outside this crate: callers hand in
//! addresses as `usize` and C text as byte slices.

pub mod export;
pub mod extras;
pub mod instance;
pub mod slot;
pub mod table;
pub mod text;
pub mod wnd;

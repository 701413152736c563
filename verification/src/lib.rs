//! A live list-reconciliation engine for a terminal resource dashboard:
//! three list states (processes, services, network connections) that
//! merge snapshots arriving on a timer with user navigation, filtering
//! and sorting — keeping the selection on the same logical row, skipping
//! snapshots whose identity content has not changed, and discarding
//! those that land inside the navigation debounce window. The
//! orchestrator routes key and timer events to the right view; every
//! call that needs the operating system is handed in or handed back as
//! plain values by the surrounding program.

pub mod app;
pub mod fingerprint;
pub mod handle;
pub mod metrics;
pub mod nav;
pub mod sorting;
pub mod state;
pub mod text;

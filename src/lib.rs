//! Control core of a tiling window manager: window metadata, hook chains,
//! event routing and the reconciliation of windows found at startup.
pub mod client;
pub mod config;
pub mod dispatch;
pub mod hooks;
pub mod reconcile;
pub mod xid;

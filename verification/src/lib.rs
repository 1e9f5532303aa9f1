//! Supervision of an external kernel service, verified.
//!
//! The library holds the decisions of a desktop shell that runs a long-lived
//! kernel process and talks to it over HTTP:
//!
//! - [`scanner`] and [`version`]: which kernel binary to run, among those found
//!   on disk;
//! - [`core_manager`]: the life cycle of the kernel process;
//! - [`readiness`]: the bounded wait for the kernel to answer, and the one
//!   navigation that follows;
//! - [`browser_sync`]: the debounced sync of the companion window's geometry;
//! - [`core_update`]: the check / install protocol over one pending-update
//!   slot;
//! - [`window_info`]: the window info with the kernel's report merged in;
//! - [`config`], [`endpoints`], [`text`]: settings, addresses and text
//!   primitives that the others share.
//!
//! Nothing here touches a file, a process, a socket or a clock. The caller
//! does, and hands plain values in and out: every function says in its
//! contract what it returns for them.

pub mod browser_sync;
pub mod config;
pub mod core_manager;
pub mod core_update;
pub mod endpoints;
pub mod readiness;
pub mod scanner;
pub mod text;
pub mod version;
pub mod window_info;

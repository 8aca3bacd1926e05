//! Submission and synchronisation core of a GPU command API.
//!
//! Native objects are named here by their raw 64-bit handles; the native
//! calls themselves are made by the embedding program, which hands the
//! results back to the library and performs what the library decides.
//!
//! - [`pool`]: the command-buffer pool, with one native pool per recording
//!   thread and an account of every handle it allocated.
//! - [`command`]: the recording builder, the finished command buffer and
//!   its ledger of the resources its commands use.
//! - [`sync`] and [`device`]: futures that describe deferred submissions,
//!   the lists one submission holds, semaphores and fences.
//! - [`layout`]: image layouts and the table of layout transitions.
//! - [`resource`]: the resources commands refer to.
//! - [`swapchain`], [`descriptor`], [`instance`]: acquiring and presenting
//!   images, descriptor writes and layouts, packed versions.
pub mod layout;
pub mod resource;
pub mod command;
pub mod pool;
pub mod sync;
pub mod device;
pub mod swapchain;
pub mod instance;
pub mod descriptor;

//! Usage tracking for GPU resources and the presentation protocol of a swapchain.
//!
//! Every buffer and texture of a device moves between usages (sampled, storage
//! write, render target, present, ...) through explicit transitions. The
//! [`track::UsageTracker`] decides, for each requested usage, whether the
//! resource can stay as it is, whether the new usage can be merged into the
//! current one, or whether a barrier has to separate the two. The
//! [`swap_chain::SwapChain`] drives the acquire and present cycle of a ring of
//! frames on top of it.
//!
//! The [`device::Device`] puts the two together with the reference counts of
//! the resources and the submissions that the GPU has not finished, so that a
//! resource is freed when nobody holds it and nothing in flight names it.
//! [`conv`] reads the enumerators and flags of the C API.
//!
//! The library never talks to a GPU. Backend work (acquiring an image, waiting
//! on a fence, submitting a command buffer) is done by the caller, which hands
//! the outcome back as a plain value.

pub mod command;
pub mod conv;
pub mod device;
pub mod error;
pub mod life;
pub mod native;
pub mod resource;
pub mod swap_chain;
pub mod track;
pub mod usage;

//! A verified model of a low-level graphics presentation layer: a
//! double-buffered swap chain (buffer queue) that hands drawable buffers to a
//! producer and submits queued frames to a hardware compositor as two-layer
//! display lists, together with the allocator bookkeeping and the compositor
//! session state machine around it.
//!
//! All device traffic (module lookup, buffer allocation, `prepare`/`set`
//! submission, power-mode calls) is performed by an embedder; this crate
//! decides what to ask of the devices and accounts for every handle and
//! fence that crosses the boundary.

pub mod fence;
pub mod gonk_gfx;
pub mod gralloc;
pub mod hwc;

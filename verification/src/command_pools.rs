//! One command pool per queue family in use. Each pool owns a single
//! dedicated primary command buffer, may be reset any number of times to
//! recycle it, and is destroyed once — the caller must have made sure the
//! device is idle with respect to the pool before resetting or destroying it.
pub mod compute;
pub mod transfer;

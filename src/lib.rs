//! Hypercall transport and VTL2 processor bring-up for a paravisor boot shim.
//!
//! The library decides; the caller performs. Every operation that touches
//! processor state (model-specific registers, the confidential-call
//! instruction, page tables) is described here as a plain value, and the
//! rules that pick, order and interpret those operations are verified.
pub mod hypercall;
pub mod isolation;
pub mod platform;
pub mod tdcall;
pub mod transport;
pub mod vp;

//! Logic of a micro-VM orchestrator: naming and configuration of virtual
//! machines, the host and guest command plans, the control-channel framing
//! and handshake, and the per-VM lifecycle.

pub mod codec;
pub mod firecracker;
pub mod guest;
pub mod network;
pub mod protocol;
pub mod tar;
pub mod text;
pub mod vm;
pub mod vm_store;
pub mod vsock;

//! Pre-boot platform bridge for a hypervisor core.
//!
//! Before the hypervisor owns its own memory manager it runs inside the boot
//! firmware, which offers two capabilities: physical page allocation and
//! filesystem access. This library is the decision core of the bridge between
//! the two worlds. The firmware itself is reached only by an unverified
//! driver; everything the firmware reports — granted page addresses, the
//! outcome of probing each filesystem volume, the bytes of each read — is
//! handed to this library as plain data, and every decision the bridge makes
//! (how a failure maps into the hypervisor's error taxonomy, when the volume
//! search continues, stops, or succeeds, what a freshly allocated frame must
//! contain) is made and proved here.
//!
//! The three components mirror the bridge's shape:
//! - [`allocator`]: the frame-allocator side, driven against an explicit
//!   model of the firmware's page pool, with zero-fill on allocation.
//! - [`loader`]: the file-loader side: the search over enumerated volumes
//!   and the accumulation of a regular file's chunks.
//! - [`services`]: the facade that composes the two into the single object
//!   the hypervisor core receives at boot.

pub mod allocator;
pub mod errors;
pub mod frame;
pub mod loader;
pub mod services;

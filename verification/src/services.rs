//! The Platform Services Facade.
//!
//! The single object the hypervisor core receives at boot: it exposes the
//! frame allocator for memory-subsystem bootstrap and the file loader for
//! locating companion images, and nothing else. The facade adds no logic of
//! its own — it only aggregates the two capabilities behind one small
//! interface.

use crate::allocator::BootMemory;
use crate::errors::Error;
use crate::loader;
use crate::loader::{read_file_spec, result_view, Enumeration, EnumerationView};
use vstd::prelude::*;

verus! {

/// The boot-session services the hypervisor core depends on, composed from
/// the frame allocator bridge and the enumerated filesystem volumes.
pub struct PlatformServices {
    memory: BootMemory,
    volumes: Enumeration,
}

impl PlatformServices {
    /// The allocator's current model state.
    pub closed spec fn spec_memory(self) -> crate::allocator::MemoryView {
        self.memory@
    }

    /// The filesystem world as enumerated for this session.
    pub closed spec fn spec_volumes(self) -> EnumerationView {
        self.volumes@
    }

    /// Composes the facade from the two leaf capabilities.
    pub fn new(memory: BootMemory, volumes: Enumeration) -> (s: PlatformServices)
        ensures
            s.spec_memory() == memory@,
            s.spec_volumes() == volumes@,
    {
        PlatformServices { memory, volumes }
    }

    /// Exclusive mutable access to the Frame Allocator Bridge, for the
    /// hypervisor's bootstrap memory manager.
    pub fn allocator(&mut self) -> (a: &mut BootMemory)
        ensures
            (*a)@ == old(self).spec_memory(),
            final(self).spec_memory() == (*final(a))@,
            final(self).spec_volumes() == old(self).spec_volumes(),
    {
        &mut self.memory
    }

    /// Reads the named file fully into memory, delegating to the File
    /// Loader over this session's volumes.
    pub fn read_file(&self, path: &str) -> (r: Result<Vec<u8>, Error>)
        ensures
            result_view(r) == read_file_spec(self.spec_volumes(), path@),
    {
        loader::read_file(&self.volumes, path)
    }
}

} // verus!

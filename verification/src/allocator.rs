//! Choice of the allocator behind the interpreter's raw memory domain.

use vstd::prelude::*;

verus! {

/// Which allocator backs the raw memory domain.
#[derive(Clone, Copy, Debug, PartialEq, Eq, Structural)]
pub enum PythonRawAllocator {
    /// Use jemalloc.
    Jemalloc,
    /// Use the Rust global allocator.
    Rust,
    /// Use the system allocator.
    System,
}

impl PythonRawAllocator {
    /// The allocator a configuration starts with: the system allocator on a
    /// Windows target, jemalloc on any other.
    pub open spec fn spec_default_for_target(windows: bool) -> PythonRawAllocator {
        if windows {
            PythonRawAllocator::System
        } else {
            PythonRawAllocator::Jemalloc
        }
    }

    /// Picks the default allocator for the target family. `windows` says
    /// whether the program is built for a Windows target.
    pub fn default_for_target(windows: bool) -> (choice: PythonRawAllocator)
        ensures
            choice == Self::spec_default_for_target(windows),
    {
        if windows {
            PythonRawAllocator::System
        } else {
            PythonRawAllocator::Jemalloc
        }
    }
}

} // verus!

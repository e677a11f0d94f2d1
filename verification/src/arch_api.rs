//! The architecture boundary.
//!
//! A concrete backend (with its own bel/wire/pip tables) implements
//! this trait; placement and routing drive the kernel through it.  The
//! kernel itself only stores what the backend hands out.

use crate::id_string::IdString;
use core::marker::PhantomData;
use vstd::prelude::*;

verus! {

/// Opaque argument bundle an architecture backend is configured with.
#[derive(Debug)]
pub struct ArchArgs<R> {
    pub phantom: PhantomData<R>,
}

impl<R> Clone for ArchArgs<R> {
    /// Copies the bundle.
    fn clone(&self) -> (r: Self)
        ensures
            r == *self,
    {
        ArchArgs { phantom: PhantomData }
    }
}

impl<R> Copy for ArchArgs<R> {}

impl<R> ArchArgs<R> {
    /// An empty argument bundle.
    pub fn new() -> (r: Self)
        ensures
            r == (ArchArgs::<R> { phantom: PhantomData }),
    {
        Self { phantom: PhantomData }
    }
}

impl<R> Default for ArchArgs<R> {
    /// The default bundle is empty.
    fn default() -> (r: Self)
        ensures
            r == (ArchArgs::<R> { phantom: PhantomData }),
    {
        ArchArgs::new()
    }
}

/// What every architecture backend offers the flow: metadata getters
/// and the four flow hooks, each reporting success.  This is the seam
/// any physical-resource query the kernel cannot answer itself goes
/// through.
pub trait ArchAPI<R> {
    /// The identifier of this architecture.
    fn arch_id(&self) -> IdString {
        IdString::new()
    }

    /// The name of the concrete chip.
    fn get_chip_name(&self) -> String {
        String::new()
    }

    /// The arguments this backend was configured with.
    fn arch_args(&self) -> ArchArgs<R> {
        ArchArgs::new()
    }

    /// Packs the netlist into architecture primitives.
    fn pack(&self) -> bool {
        false
    }

    /// Places the packed netlist.
    fn place(&self) -> bool {
        false
    }

    /// Routes the placed netlist.
    fn route(&self) -> bool {
        false
    }

    /// Attaches architecture-specific data to the netlist.
    fn assign_arch_info(&self) -> bool {
        false
    }
}

} // verus!

//! A placement vector for the first steps of kernel initialization.
//!
//! There is no heap this early: the whole address space is open, and the
//! caller chooses where a dynamic array starts.  The vector records its
//! base address, its element size and its length; it does not own memory.

use core::marker::PhantomData;

use vstd::prelude::*;

verus! {

/// A dynamic array placed at a caller-chosen physical address.  Addresses
/// and sizes are 32 bits wide: this is a 32-bit platform, whatever the
/// width of the machine the kernel is built on.
pub struct KernelVec<T> {
    /// Physical base address of the first element.
    pub location: u32,
    /// Size in bytes of one element.
    pub size: u32,
    /// Number of elements currently stored.
    pub length: u32,
    /// The element type the addresses are interpreted at.
    pub element: PhantomData<T>,
}

impl<T> KernelVec<T> {
    /// An empty vector whose first element will sit at `location`.
    pub fn new(location: u32) -> (vector: KernelVec<T>)
        ensures
            vector.location == location,
            vector.length == 0,
            vstd::layout::size_of::<T>() <= u32::MAX ==> vector.size == vstd::layout::size_of::<
                T,
            >(),
    {
        let size: usize = core::mem::size_of::<T>();
        KernelVec {
            location,
            size: #[verifier::truncate] (size as u32),
            length: 0,
            element: PhantomData,
        }
    }
}

} // verus!

//! Memory-type selection for buffer and image allocations.
//!
//! An allocation asks for the first memory type that the resource's
//! requirements admit (one bit of the type filter per type) and that
//! carries every requested property flag; staging buffers ask for
//! host-visible and host-coherent memory, steady-state resources for
//! device-local memory.

use vstd::prelude::*;
use crate::error::RenderError;

verus! {

/// Property-flag bit: visible to device reads and writes only.
pub const MEMORY_PROPERTY_DEVICE_LOCAL: u32 = 0x1;
/// Property-flag bit: mappable by the host.
pub const MEMORY_PROPERTY_HOST_VISIBLE: u32 = 0x2;
/// Property-flag bit: host writes need no explicit flush.
pub const MEMORY_PROPERTY_HOST_COHERENT: u32 = 0x4;

/// The device advertises at most 32 memory types; the type filter is one
/// bit per type.
pub const MAX_MEMORY_TYPES: usize = 32;

/// Memory type `i` qualifies when the requirement filter has bit `i` set
/// and the type's flags carry every requested property.
pub open spec fn memory_type_suitable(
    type_filter: u32,
    required_properties: u32,
    flags: u32,
    i: u32,
) -> bool {
    &&& (type_filter >> i) & 1 == 1
    &&& flags & required_properties == required_properties
}

/// Selects the index of the first advertised memory type satisfying the
/// filter and the property flags.  Fails with `NoCompatibleMemoryType`
/// exactly when no type qualifies; this is fatal.
pub fn find_memory_type(
    type_filter: u32,
    required_properties: u32,
    memory_type_flags: &Vec<u32>,
) -> (r: Result<u32, RenderError>)
    requires
        memory_type_flags@.len() <= MAX_MEMORY_TYPES,
    ensures
        r is Ok <==> exists|i: int| 0 <= i < memory_type_flags@.len()
            && memory_type_suitable(
                type_filter,
                required_properties,
                memory_type_flags@[i],
                i as u32,
            ),
        match r {
            Ok(i) => {
                &&& 0 <= i < memory_type_flags@.len()
                &&& memory_type_suitable(
                    type_filter,
                    required_properties,
                    memory_type_flags@[i as int],
                    i,
                )
                &&& forall|j: int| 0 <= j < i ==> !memory_type_suitable(
                    type_filter,
                    required_properties,
                    memory_type_flags@[j],
                    j as u32,
                )
            },
            Err(e) => e == RenderError::NoCompatibleMemoryType,
        },
{
    let n: usize = memory_type_flags.len();
    let mut i: usize = 0;
    while i < n
        invariant
            0 <= i <= n,
            n == memory_type_flags@.len(),
            n <= MAX_MEMORY_TYPES,
            forall|j: int| 0 <= j < i ==> !memory_type_suitable(
                type_filter,
                required_properties,
                memory_type_flags@[j],
                j as u32,
            ),
        decreases n - i,
    {
        let flags = memory_type_flags[i];
        if (type_filter >> (i as u32)) & 1 == 1
            && flags & required_properties == required_properties {
            return Ok(i as u32);
        }
        i = i + 1;
    }
    Err(RenderError::NoCompatibleMemoryType)
}

} // verus!

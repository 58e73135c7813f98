//! Memory-type selection for buffer allocation.
//!
//! A buffer's memory requirements name, as a 32-bit mask, which of the
//! adapter's memory types may back it; the caller adds the property flags it
//! needs (device-local, or host-visible and coherent).  This module finds the
//! first memory type satisfying both, as the allocation call requires.

use vstd::prelude::*;

verus! {

/// Property flag of memory the GPU reaches fastest.
pub const MEMORY_PROPERTY_DEVICE_LOCAL: u32 = 1;
/// Property flag of memory the CPU may map.
pub const MEMORY_PROPERTY_HOST_VISIBLE: u32 = 2;
/// Property flag of mapped memory that needs no explicit flush.
pub const MEMORY_PROPERTY_HOST_COHERENT: u32 = 4;

/// Bit `i` of the requirement mask: may memory type `i` back the buffer?
pub open spec fn filter_bit_set(type_filter: u32, i: int) -> bool {
    type_filter & (1u32 << (i as u32)) != 0
}

/// Does a memory type's property-flag word offer everything in `required`?
pub open spec fn covers(flags: u32, required: u32) -> bool {
    flags & required == required
}

/// Memory type `i` both passes the requirement mask and offers the required
/// properties.
pub open spec fn memory_type_suitable(
    type_filter: u32,
    flags: Seq<u32>,
    required: u32,
    i: int,
) -> bool {
    filter_bit_set(type_filter, i) && covers(flags[i], required)
}

/// Index of the first memory type that passes the requirement mask and
/// offers the required properties, or `None` when no type does.  The caller
/// treats `None` as fatal: it signals a misconfigured platform, not a
/// transient condition.
///
/// The flag table has at most 32 entries, one per bit of the mask.
pub fn find_memory_type(type_filter: u32, memory_type_flags: &Vec<u32>, required: u32) -> (r: Option<
    usize,
>)
    requires
        memory_type_flags@.len() <= 32,
    ensures
        match r {
            None => forall|i: int|
                0 <= i < memory_type_flags@.len() ==> !memory_type_suitable(
                    type_filter,
                    memory_type_flags@,
                    required,
                    i,
                ),
            Some(i) => {
                &&& i < memory_type_flags@.len()
                &&& memory_type_suitable(type_filter, memory_type_flags@, required, i as int)
                &&& forall|j: int|
                    0 <= j < i ==> !memory_type_suitable(
                        type_filter,
                        memory_type_flags@,
                        required,
                        j,
                    )
            },
        },
{
    let mut i: usize = 0;
    while i < memory_type_flags.len()
        invariant
            memory_type_flags@.len() <= 32,
            i <= memory_type_flags@.len(),
            forall|j: int|
                0 <= j < i ==> !memory_type_suitable(type_filter, memory_type_flags@, required, j),
        decreases memory_type_flags@.len() - i,
    {
        if type_filter & (1u32 << (i as u32)) != 0 && memory_type_flags[i] & required == required {
            return Some(i);
        }
        i = i + 1;
    }
    None
}

} // verus!

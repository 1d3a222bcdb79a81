//! Memory-type selection for device allocations.
//!
//! A device advertises a table of at most 32 memory types, each with a set of
//! property flags. A resource to be allocated reports, as a bit mask, which
//! table rows it can live in. An allocation succeeds only when some row is
//! both permitted by the mask and offers every requested property flag;
//! finding no such row is a configuration error that the caller treats as
//! fatal.

use vstd::prelude::*;

verus! {

/// The number of rows a device's memory-type table can hold.
pub const MAX_MEMORY_TYPES: usize = 32;

/// Whether the memory type with property flags `prop_flags`, sitting at row
/// `i` of the table, can back the allocation: row `i` is set in the
/// resource's `memory_type_bits` mask and the row offers every flag of
/// `required`.
pub open spec fn memory_type_matches(
    prop_flags: u32,
    memory_type_bits: u32,
    required: u32,
    i: u32,
) -> bool {
    &&& memory_type_bits & (1u32 << i) != 0
    &&& prop_flags & required == required
}

/// Returns the first row of the memory-type table that the resource's
/// `memory_type_bits` mask permits and that offers every flag of `required`,
/// or `None` when no row qualifies.
///
/// `memory_types` holds the property flags of each advertised memory type,
/// already truncated to the device's advertised count.
pub fn find_memorytype_index(
    memory_types: &Vec<u32>,
    memory_type_bits: u32,
    required: u32,
) -> (r: Option<u32>)
    requires
        memory_types@.len() <= MAX_MEMORY_TYPES,
    ensures
        match r {
            Some(i) => {
                &&& 0 <= i < memory_types@.len()
                &&& memory_type_matches(memory_types@[i as int], memory_type_bits, required, i)
                &&& forall|j: u32| j < i ==> !memory_type_matches(
                    memory_types@[j as int], memory_type_bits, required, j)
            },
            None => forall|j: u32| j < memory_types@.len() ==> !memory_type_matches(
                memory_types@[j as int], memory_type_bits, required, j),
        },
{
    let n = memory_types.len();
    let mut i: usize = 0;
    while i < n
        invariant
            n == memory_types@.len() <= MAX_MEMORY_TYPES,
            i <= n,
            forall|j: u32| j < i ==> !memory_type_matches(
                memory_types@[j as int], memory_type_bits, required, j),
        decreases n - i,
    {
        let prop_flags = memory_types[i];
        if memory_type_bits & (1u32 << (i as u32)) != 0 && prop_flags & required == required {
            return Some(i as u32);
        }
        i = i + 1;
    }
    None
}

} // verus!

//! Memory-type selection for buffer and image allocations.

use vstd::prelude::*;

verus! {

/// Whether memory type `i` is acceptable: the requirement mask admits it and
/// its property flags include every required flag.
pub open spec fn memory_type_suitable(
    memory_type_bits: u32,
    property_flags: Seq<u32>,
    required: u32,
    i: int,
) -> bool
    recommends
        0 <= i < property_flags.len(),
        property_flags.len() <= 32,
{
    &&& (memory_type_bits >> (i as u32)) & 1 == 1
    &&& property_flags[i] & required == required
}

/// Finds the first memory type admitted by the requirement mask whose
/// property flags include every required flag; `None` when no type fits.
pub fn get_memory_type_index(memory_type_bits: u32, property_flags: &Vec<u32>, required: u32) -> (r:
    Option<u32>)
    requires
        property_flags@.len() <= 32,
    ensures
        match r {
            Some(i) => {
                &&& 0 <= i < property_flags@.len()
                &&& memory_type_suitable(memory_type_bits, property_flags@, required, i as int)
                &&& forall|j: int|
                    0 <= j < i ==> !memory_type_suitable(
                        memory_type_bits,
                        property_flags@,
                        required,
                        j,
                    )
            },
            None => forall|j: int|
                0 <= j < property_flags@.len() ==> !memory_type_suitable(
                    memory_type_bits,
                    property_flags@,
                    required,
                    j,
                ),
        },
{
    let n = property_flags.len();
    let mut i: usize = 0;
    while i < n
        invariant
            n == property_flags@.len() <= 32,
            0 <= i <= n,
            forall|j: int|
                0 <= j < i ==> !memory_type_suitable(memory_type_bits, property_flags@, required, j),
        decreases n - i,
    {
        let admitted = (memory_type_bits >> (i as u32)) & 1 == 1;
        let flags = property_flags[i];
        if admitted && flags & required == required {
            return Some(i as u32);
        }
        i = i + 1;
    }
    None
}

} // verus!

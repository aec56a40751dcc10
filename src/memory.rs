use vstd::prelude::*;

verus! {

/// Memory property bit: local to the device, fastest for device access.
pub const MEMORY_DEVICE_LOCAL: u32 = 1;

/// Memory property bit: the host can map it.
pub const MEMORY_HOST_VISIBLE: u32 = 2;

/// Memory property bit: host writes need no explicit flush to become visible to the device.
pub const MEMORY_HOST_COHERENT: u32 = 4;

/// The properties a staging buffer's memory needs.
pub const STAGING_PROPERTIES: u32 = MEMORY_HOST_VISIBLE | MEMORY_HOST_COHERENT;

/// Whether memory type `i` is allowed by a resource whose allowed types are the set bits
/// of `type_bits`.
pub open spec fn type_allowed(type_bits: u32, i: int) -> bool {
    0 <= i < 32 && type_bits & (1u32 << (i as u32)) != 0
}

/// Whether memory type `i`, with property bits `flags[i]`, suits a resource allowing
/// `type_bits` and needing every bit of `required`.
pub open spec fn suitable(type_bits: u32, flags: Seq<u32>, required: u32, i: int) -> bool {
    &&& 0 <= i < flags.len()
    &&& type_allowed(type_bits, i)
    &&& flags[i] & required == required
}

/// `r` is the first suitable memory type, or `None` when there is none.
pub open spec fn first_suitable(type_bits: u32, flags: Seq<u32>, required: u32, r: Option<usize>) -> bool {
    match r {
        Some(i) => suitable(type_bits, flags, required, i as int)
            && forall|j: int| 0 <= j < i ==> !suitable(type_bits, flags, required, j),
        None => forall|j: int| 0 <= j < flags.len() ==> !suitable(type_bits, flags, required, j),
    }
}

/// Picks the first memory type, of those whose property bits are listed in `type_flags`,
/// that the resource allows and that has all of `required`.
pub fn find_memory_type(type_bits: u32, type_flags: &Vec<u32>, required: u32) -> (r: Option<usize>)
    ensures
        first_suitable(type_bits, type_flags@, required, r),
{
    let mut i: usize = 0;
    while i < type_flags.len()
        invariant
            i <= type_flags.len(),
            forall|j: int| 0 <= j < i ==> !suitable(type_bits, type_flags@, required, j),
        decreases type_flags.len() - i,
    {
        if i >= 32 {
            assert forall|j: int| 0 <= j < type_flags@.len() implies !suitable(type_bits, type_flags@, required, j) by {
                if j >= 32 {
                    assert(!type_allowed(type_bits, j));
                }
            }
            return None;
        }
        if type_bits & (1u32 << (i as u32)) != 0 && type_flags[i] & required == required {
            return Some(i);
        }
        i = i + 1;
    }
    None
}

/// Picks the memory type for a staging buffer: host-visible and host-coherent.
pub fn staging_memory_type(type_bits: u32, type_flags: &Vec<u32>) -> (r: Option<usize>)
    ensures
        first_suitable(type_bits, type_flags@, STAGING_PROPERTIES, r),
{
    find_memory_type(type_bits, type_flags, STAGING_PROPERTIES)
}

} // verus!

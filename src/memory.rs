use vstd::prelude::*;

verus! {

/// Number of memory-type slots a physical device can report.
pub const MAX_MEMORY_TYPES: usize = 32;

/// Memory that the host can map.
pub const HOST_VISIBLE: u32 = 0x2;

/// Memory whose host writes need no explicit flush.
pub const HOST_COHERENT: u32 = 0x4;

/// One memory-type slot of a physical device: its property flags and heap.
#[derive(Clone, Copy, Debug, PartialEq, Eq)]
pub struct MemoryType {
    pub property_flags: u32,
    pub heap_index: u32,
}

/// The memory types that a physical device offers, in slot order.
pub struct MemoryProperties {
    pub memory_types: Vec<MemoryType>,
}

/// What the driver asks of an allocation that backs a resource.
#[derive(Clone, Copy, Debug, PartialEq, Eq)]
pub struct MemoryRequirements {
    pub size: u64,
    pub alignment: u64,
    pub memory_type_bits: u32,
}

/// Bit `i` of `type_bits` is set.
pub open spec fn type_bit_set(type_bits: u32, i: int) -> bool {
    0 <= i < 32 && type_bits & (1u32 << (i as u32)) != 0
}

/// `flags` holds every flag of `required`.
pub open spec fn has_all_flags(flags: u32, required: u32) -> bool {
    flags & required == required
}

/// Slot `i` may back a resource with these requirements and needs.
pub open spec fn memory_type_suitable(
    type_bits: u32,
    types: Seq<MemoryType>,
    required: u32,
    i: int,
) -> bool {
    0 <= i < types.len() && type_bit_set(type_bits, i) && has_all_flags(
        types[i].property_flags,
        required,
    )
}

/// Picks the lowest memory-type slot that the requirements allow and whose
/// property flags include all of `flags`; `None` when no slot qualifies.
pub fn find_memorytype_index(
    memory_req: &MemoryRequirements,
    memory_prop: &MemoryProperties,
    flags: u32,
) -> (r: Option<u32>)
    ensures
        match r {
            Some(i) => {
                &&& memory_type_suitable(
                    memory_req.memory_type_bits,
                    memory_prop.memory_types@,
                    flags,
                    i as int,
                )
                &&& forall|j: int|
                    0 <= j < i ==> !memory_type_suitable(
                        memory_req.memory_type_bits,
                        memory_prop.memory_types@,
                        flags,
                        j,
                    )
            },
            None => forall|j: int|
                !memory_type_suitable(
                    memory_req.memory_type_bits,
                    memory_prop.memory_types@,
                    flags,
                    j,
                ),
        },
{
    let types = &memory_prop.memory_types;
    let bits = memory_req.memory_type_bits;
    let n = if types.len() < MAX_MEMORY_TYPES {
        types.len()
    } else {
        MAX_MEMORY_TYPES
    };
    let mut i: usize = 0;
    while i < n
        invariant
            n <= types.len(),
            n <= MAX_MEMORY_TYPES,
            i <= n,
            bits == memory_req.memory_type_bits,
            types@ == memory_prop.memory_types@,
            forall|j: int| 0 <= j < i ==> !memory_type_suitable(bits, types@, flags, j),
        decreases n - i,
    {
        let mask: u32 = 1u32 << (i as u32);
        if bits & mask != 0 && types[i].property_flags & flags == flags {
            return Some(i as u32);
        }
        i = i + 1;
    }
    None
}

} // verus!

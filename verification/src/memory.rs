//! The memory types that a physical device offers, and the search for one
//! that a resource may live in and that has the wanted properties.
use vstd::prelude::*;

verus! {

/// One memory type of a physical device: its property flags (as the bits of
/// `VkMemoryPropertyFlags`) and the heap it belongs to.
#[derive(Debug, Clone, Copy)]
pub struct MemoryType {
    pub property_flags: u32,
    pub heap_index: u32,
}

/// The memory types of a physical device; only the first `memory_type_count`
/// entries are in use.
#[derive(Debug, Clone, Copy)]
pub struct PhysicalDeviceMemoryProperties {
    pub memory_type_count: u32,
    pub memory_types: [MemoryType; 32],
}

/// What a resource asks of the memory that backs it; bit `i` of
/// `memory_type_bits` is set when memory type `i` may back it.
#[derive(Debug, Clone, Copy)]
pub struct MemoryRequirements {
    pub size: u64,
    pub alignment: u64,
    pub memory_type_bits: u32,
}

/// Bit `index` of `bits` is set.
pub open spec fn type_bit_set(bits: u32, index: int) -> bool {
    0 <= index < 32 && (bits >> (index as u32)) & 1u32 == 1u32
}

/// How the property flags of a memory type are held against the wanted flags.
pub ghost enum FlagMatch {
    /// The property flags hold every wanted flag, and maybe more.
    Contains,
    /// The property flags are exactly the wanted flags.
    Exact,
}

/// `property_flags` match `flags` in the way `how` says.
pub open spec fn flags_match(how: FlagMatch, property_flags: u32, flags: u32) -> bool {
    match how {
        FlagMatch::Contains => property_flags & flags == flags,
        FlagMatch::Exact => property_flags == flags,
    }
}

/// Memory type `index` lies among the first `limit` types, is allowed by
/// `bits`, and its property flags match `flags` in the way `how` says.
pub open spec fn suitable(
    memory_prop: PhysicalDeviceMemoryProperties,
    limit: int,
    bits: u32,
    flags: u32,
    how: FlagMatch,
    index: int,
) -> bool {
    &&& 0 <= index < limit
    &&& type_bit_set(bits, index)
    &&& flags_match(how, memory_prop.memory_types@[index].property_flags, flags)
}

/// `found` is the first suitable memory type among the first `limit`, or
/// `None` where none is suitable.
pub open spec fn first_suitable(
    memory_prop: PhysicalDeviceMemoryProperties,
    limit: int,
    bits: u32,
    flags: u32,
    how: FlagMatch,
    found: Option<u32>,
) -> bool {
    match found {
        Some(index) => {
            &&& suitable(memory_prop, limit, bits, flags, how, index as int)
            &&& forall|j: int| 0 <= j < index ==> !suitable(memory_prop, limit, bits, flags, how, j)
        },
        None => forall|j: int| 0 <= j < limit ==> !suitable(memory_prop, limit, bits, flags, how, j),
    }
}

/// Testing a shifted one against the bits is testing bit `index`.
pub proof fn lemma_shifted_one_tests_bit(bits: u32, index: u32)
    requires
        index < 32,
    ensures
        ((1u32 << index) & bits != 0) == ((bits >> index) & 1u32 == 1u32),
{
    assert(((1u32 << index) & bits != 0) == ((bits >> index) & 1u32 == 1u32)) by (bit_vector)
        requires
            index < 32,
    ;
}

/// The first memory type, among the `memory_type_count` in use, that
/// `memory_type_bits` allows and whose property flags hold all of `flags`.
pub fn find_memory_type_index(
    memory_prop: &PhysicalDeviceMemoryProperties,
    memory_type_bits: u32,
    flags: u32,
) -> (index: Option<u32>)
    requires
        memory_prop.memory_type_count <= 32,
    ensures
        first_suitable(
            *memory_prop,
            memory_prop.memory_type_count as int,
            memory_type_bits,
            flags,
            FlagMatch::Contains,
            index,
        ),
{
    let count = memory_prop.memory_type_count as usize;
    let mut index: usize = 0;
    while index < count
        invariant
            count == memory_prop.memory_type_count,
            count <= 32,
            index <= count,
            forall|j: int|
                0 <= j < index ==> !suitable(
                    *memory_prop,
                    count as int,
                    memory_type_bits,
                    flags,
                    FlagMatch::Contains,
                    j,
                ),
        decreases count - index,
    {
        let memory_type = &memory_prop.memory_types[index];
        proof {
            lemma_shifted_one_tests_bit(memory_type_bits, index as u32);
        }
        if (1u32 << index as u32) & memory_type_bits != 0 && (memory_type.property_flags & flags)
            == flags {
            return Some(index as u32);
        }
        index += 1;
    }
    None
}

} // verus!

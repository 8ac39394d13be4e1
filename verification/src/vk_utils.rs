//! Helpers of the Vulkan backend: alignment of lengths, byte sizes of
//! slices, and the choice of a memory type for an allocation.
use crate::align::{align_up, lemma_padding_reaches_align_up};
use crate::memory::{
    first_suitable, flags_match, lemma_shifted_one_tests_bit, suitable, type_bit_set, FlagMatch,
    MemoryRequirements, PhysicalDeviceMemoryProperties,
};
use vstd::prelude::*;

verus! {

/// Rounds `len` up to a multiple of `padding`.
pub fn return_aligned(len: u32, padding: u32) -> (aligned: u32)
    requires
        padding > 0,
        align_up(len as int, padding as int) <= u32::MAX,
    ensures
        aligned == align_up(len as int, padding as int),
{
    proof {
        lemma_padding_reaches_align_up(len as int, padding as int);
    }
    len + (padding - len % padding) % padding
}

/// The memory type that `find_memory_type_index` picks: the first allowed
/// one whose flags are exactly `flags` where there is one, else the first
/// allowed one whose flags hold all of `flags`.
pub open spec fn preferred_memory_type(
    memory_req: MemoryRequirements,
    memory_prop: PhysicalDeviceMemoryProperties,
    flags: u32,
    found: Option<u32>,
) -> bool {
    let bits = memory_req.memory_type_bits;
    if exists|i: int| suitable(memory_prop, 32, bits, flags, FlagMatch::Exact, i) {
        first_suitable(memory_prop, 32, bits, flags, FlagMatch::Exact, found)
    } else {
        first_suitable(memory_prop, 32, bits, flags, FlagMatch::Contains, found)
    }
}

/// A memory type whose flags are exactly the wanted flags also holds them.
pub proof fn lemma_exact_holds(memory_prop: PhysicalDeviceMemoryProperties, bits: u32, flags: u32, i: int)
    requires
        suitable(memory_prop, 32, bits, flags, FlagMatch::Exact, i),
    ensures
        suitable(memory_prop, 32, bits, flags, FlagMatch::Contains, i),
{
    let p = memory_prop.memory_types@[i].property_flags;
    assert(p == flags ==> p & flags == flags) by (bit_vector);
}

/// The type that `find_memory_type_index` picks holds every wanted flag
/// and is allowed, and it finds one whenever some allowed type holds the
/// wanted flags.
pub proof fn lemma_preferred_type_holds_flags(
    memory_req: MemoryRequirements,
    memory_prop: PhysicalDeviceMemoryProperties,
    flags: u32,
    found: Option<u32>,
)
    requires
        preferred_memory_type(memory_req, memory_prop, flags, found),
    ensures
        found matches Some(i) ==> suitable(memory_prop, 32, memory_req.memory_type_bits, flags, FlagMatch::Contains, i as int),
        found is None ==> forall|j: int| !suitable(memory_prop, 32, memory_req.memory_type_bits, flags, FlagMatch::Contains, j),
{
    let bits = memory_req.memory_type_bits;
    if exists|i: int| suitable(memory_prop, 32, bits, flags, FlagMatch::Exact, i) {
        if let Some(i) = found {
            lemma_exact_holds(memory_prop, bits, flags, i as int);
        }
    }
}

/// Picks a memory type allowed by `memory_req` for memory with `flags`,
/// preferring a type whose flags are exactly `flags` over one whose flags
/// only hold them. All 32 memory type slots are searched.
pub fn find_memory_type_index(
    memory_req: &MemoryRequirements,
    memory_prop: &PhysicalDeviceMemoryProperties,
    flags: u32,
) -> (index: Option<u32>)
    ensures
        preferred_memory_type(*memory_req, *memory_prop, flags, index),
{
    let exact = |property_flags: u32, flags: u32| -> (same: bool)
        ensures
            same == (property_flags == flags),
        {
            property_flags == flags
        };
    let contains = |property_flags: u32, flags: u32| -> (held: bool)
        ensures
            held == (property_flags & flags == flags),
        {
            property_flags & flags == flags
        };
    let best_suitable_index = find_memorytype_index_f(
        memory_req,
        memory_prop,
        flags,
        exact,
        Ghost(FlagMatch::Exact),
    );
    if best_suitable_index.is_some() {
        return best_suitable_index;
    }
    find_memorytype_index_f(memory_req, memory_prop, flags, contains, Ghost(FlagMatch::Contains))
}

/// The first of the 32 memory type slots that `memory_req` allows and whose
/// property flags `f` accepts against `flags`; `f` decides as `how` says.
fn find_memorytype_index_f<F>(
    memory_req: &MemoryRequirements,
    memory_prop: &PhysicalDeviceMemoryProperties,
    flags: u32,
    f: F,
    Ghost(how): Ghost<FlagMatch>,
) -> (index: Option<u32>) where F: Fn(u32, u32) -> bool
    requires
        forall|p: u32, q: u32| f.requires((p, q)),
        forall|p: u32, q: u32, r: bool| f.ensures((p, q), r) ==> r == flags_match(how, p, q),
    ensures
        first_suitable(*memory_prop, 32, memory_req.memory_type_bits, flags, how, index),
{
    let bits = memory_req.memory_type_bits;
    let mut memory_type_bits = memory_req.memory_type_bits;
    let mut index: usize = 0;
    assert(bits >> 0u32 == bits) by (bit_vector);
    while index < 32
        invariant
            bits == memory_req.memory_type_bits,
            index <= 32,
            index < 32 ==> memory_type_bits == bits >> (index as u32),
            forall|p: u32, q: u32| f.requires((p, q)),
            forall|p: u32, q: u32, r: bool| f.ensures((p, q), r) ==> r == flags_match(how, p, q),
            forall|j: int| 0 <= j < index ==> !suitable(*memory_prop, 32, bits, flags, how, j),
        decreases 32 - index,
    {
        let memory_type = &memory_prop.memory_types[index];
        if memory_type_bits & 1 == 1 && f(memory_type.property_flags, flags) {
            return Some(index as u32);
        }
        let i = index as u32;
        if i < 31 {
            assert((bits >> i) >> 1u32 == bits >> ((i + 1) as u32)) by (bit_vector)
                requires
                    i < 31,
            ;
        }
        memory_type_bits >>= 1;
        index += 1;
    }
    None
}

/// The first memory type, among the `memory_type_count` in use, that
/// `memory_req` allows and whose property flags hold all of `flags`.
pub fn find_memorytype_index(
    memory_req: &MemoryRequirements,
    memory_prop: &PhysicalDeviceMemoryProperties,
    flags: u32,
) -> (index: Option<u32>)
    requires
        memory_prop.memory_type_count <= 32,
    ensures
        first_suitable(
            *memory_prop,
            memory_prop.memory_type_count as int,
            memory_req.memory_type_bits,
            flags,
            FlagMatch::Contains,
            index,
        ),
{
    let count = memory_prop.memory_type_count as usize;
    let bits = memory_req.memory_type_bits;
    let mut index: usize = 0;
    while index < count
        invariant
            count == memory_prop.memory_type_count,
            bits == memory_req.memory_type_bits,
            count <= 32,
            index <= count,
            forall|j: int|
                0 <= j < index ==> !suitable(
                    *memory_prop,
                    count as int,
                    bits,
                    flags,
                    FlagMatch::Contains,
                    j,
                ),
        decreases count - index,
    {
        let memory_type = &memory_prop.memory_types[index];
        proof {
            lemma_shifted_one_tests_bit(bits, index as u32);
        }
        if (1u32 << index as u32) & bits != 0 && (memory_type.property_flags & flags) == flags {
            return Some(index as u32);
        }
        index += 1;
    }
    None
}

/// The number of bytes that the elements of `slice` take.
pub fn size_of_slice<T: Sized>(slice: &[T]) -> (size: usize)
    requires
        vstd::layout::size_of::<T>() * slice@.len() <= usize::MAX,
    ensures
        size == vstd::layout::size_of::<T>() * slice@.len(),
{
    core::mem::size_of::<T>() * slice.len()
}

/// The first word of every SPIR-V module.
pub const SPIRV_MAGIC_NUMBER: u32 = 0x0723_0203;

/// The word whose bytes, lowest first, are `b0`, `b1`, `b2`, `b3`.
pub open spec fn le_word(b0: u8, b1: u8, b2: u8, b3: u8) -> int {
    b0 + 0x100 * b1 + 0x1_0000 * b2 + 0x100_0000 * b3
}

/// Word `i` of `data`, its bytes lowest first where `little`, highest
/// first otherwise.
pub open spec fn word_in_order(data: Seq<u8>, i: int, little: bool) -> int {
    let (b0, b1, b2, b3) = (data[4 * i], data[4 * i + 1], data[4 * i + 2], data[4 * i + 3]);
    if little {
        le_word(b0, b1, b2, b3)
    } else {
        le_word(b3, b2, b1, b0)
    }
}

/// Calls `u32::to_ne_bytes` on 1: its bytes in the machine's byte order.
/// Every Rust target is little- or big-endian, so the 1 stands first or
/// last; which one depends on the machine and is left unsaid.
#[verifier::external_body]
fn one_in_native_order() -> (bytes: [u8; 4])
    ensures
        bytes@ == seq![1u8, 0u8, 0u8, 0u8] || bytes@ == seq![0u8, 0u8, 0u8, 1u8],
{
    1u32.to_ne_bytes()
}

/// The word whose bytes, lowest first, are `b0`, `b1`, `b2`, `b3`.
fn word_from_bytes(b0: u8, b1: u8, b2: u8, b3: u8) -> (word: u32)
    ensures
        word == le_word(b0, b1, b2, b3),
{
    b0 as u32 + b1 as u32 * 0x100 + b2 as u32 * 0x1_0000 + b3 as u32 * 0x100_0000
}

/// The words of the SPIR-V module `data`, read with their bytes lowest
/// first where `little`, highest first otherwise: `Ok` with every word where
/// the first word is the SPIR-V magic number, else `Err` with that first
/// word (a module the program refuses and stops on).
pub fn make_spirv_in_order(data: &[u8], little: bool) -> (words: Result<Vec<u32>, u32>)
    requires
        data@.len() % 4 == 0,
        data@.len() >= 4,
    ensures
        words is Ok <==> word_in_order(data@, 0, little) == SPIRV_MAGIC_NUMBER,
        match words {
            Ok(w) => {
                &&& w@.len() == data@.len() / 4
                &&& forall|i: int|
                    0 <= i < w@.len() ==> #[trigger] w@[i] == word_in_order(data@, i, little)
            },
            Err(first) => first == word_in_order(data@, 0, little),
        },
{
    let len = data.len();
    let n = len / 4;
    let mut w: Vec<u32> = Vec::new();
    let mut i: usize = 0;
    while i < n
        invariant
            len == data@.len(),
            n == len / 4,
            len % 4 == 0,
            i <= n,
            w@.len() == i,
            forall|k: int| 0 <= k < i ==> #[trigger] w@[k] == word_in_order(data@, k, little),
        decreases n - i,
    {
        assert(4 * i + 3 < len) by (nonlinear_arith)
            requires
                i < n,
                n == len / 4,
                len % 4 == 0,
        ;
        let at = 4 * i;
        let word = if little {
            word_from_bytes(data[at], data[at + 1], data[at + 2], data[at + 3])
        } else {
            word_from_bytes(data[at + 3], data[at + 2], data[at + 1], data[at])
        };
        w.push(word);
        i += 1;
    }
    assert(n >= 1);
    assert(w@[0] == word_in_order(data@, 0, little));
    if w[0] != SPIRV_MAGIC_NUMBER {
        Err(w[0])
    } else {
        Ok(w)
    }
}

/// The words of the SPIR-V module `data`, all read in the machine's byte
/// order, which `u32::to_ne_bytes` reports: the words that
/// `make_spirv_in_order` gives in that order.
pub fn make_spirv(data: &[u8]) -> (words: Result<Vec<u32>, u32>)
    requires
        data@.len() % 4 == 0,
        data@.len() >= 4,
    ensures
        exists|little: bool|
            #![trigger word_in_order(data@, 0, little)]
            {
                &&& (words is Ok <==> word_in_order(data@, 0, little) == SPIRV_MAGIC_NUMBER)
                &&& match words {
                    Ok(w) => {
                        &&& w@.len() == data@.len() / 4
                        &&& forall|i: int|
                            0 <= i < w@.len() ==> #[trigger] w@[i] == word_in_order(
                                data@,
                                i,
                                little,
                            )
                    },
                    Err(first) => first == word_in_order(data@, 0, little),
                }
            },
{
    let one = one_in_native_order();
    let little = one[0] == 1;
    make_spirv_in_order(data, little)
}

} // verus!

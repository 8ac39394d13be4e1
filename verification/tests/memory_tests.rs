use pilka::memory::{find_memory_type_index, MemoryRequirements, MemoryType, PhysicalDeviceMemoryProperties};
use pilka::vk_utils;

const DEVICE_LOCAL: u32 = 0x1;
const HOST_VISIBLE: u32 = 0x2;
const HOST_COHERENT: u32 = 0x4;
const HOST_CACHED: u32 = 0x8;

fn properties(flags: &[u32]) -> PhysicalDeviceMemoryProperties {
    let mut memory_types = [MemoryType { property_flags: 0, heap_index: 0 }; 32];
    for (i, f) in flags.iter().enumerate() {
        memory_types[i] = MemoryType { property_flags: *f, heap_index: 0 };
    }
    PhysicalDeviceMemoryProperties { memory_type_count: flags.len() as u32, memory_types }
}

fn requirements(bits: u32) -> MemoryRequirements {
    MemoryRequirements { size: 1024, alignment: 256, memory_type_bits: bits }
}

#[test]
fn memory_type_first_allowed_with_flags() {
    let props = properties(&[DEVICE_LOCAL, HOST_VISIBLE | HOST_COHERENT, HOST_VISIBLE | HOST_COHERENT | HOST_CACHED]);
    assert_eq!(find_memory_type_index(&props, 0b111, HOST_VISIBLE), Some(1));
    assert_eq!(find_memory_type_index(&props, 0b101, HOST_VISIBLE), Some(2));
    assert_eq!(find_memory_type_index(&props, 0b001, HOST_VISIBLE), None);
    assert_eq!(find_memory_type_index(&props, 0b111, 0), Some(0));
}

#[test]
fn memory_type_search_stops_at_type_count() {
    let mut props = properties(&[DEVICE_LOCAL, HOST_VISIBLE]);
    props.memory_types[5] = MemoryType { property_flags: HOST_CACHED, heap_index: 1 };
    assert_eq!(find_memory_type_index(&props, u32::MAX, HOST_CACHED), None);
    assert_eq!(vk_utils::find_memorytype_index(&requirements(u32::MAX), &props, HOST_CACHED), None);
}

#[test]
fn memory_type_exact_match_is_preferred() {
    let props = properties(&[HOST_VISIBLE | HOST_COHERENT | HOST_CACHED, HOST_VISIBLE]);
    assert_eq!(vk_utils::find_memory_type_index(&requirements(0b11), &props, HOST_VISIBLE), Some(1));
    assert_eq!(vk_utils::find_memorytype_index(&requirements(0b11), &props, HOST_VISIBLE), Some(0));
}

#[test]
fn memory_type_falls_back_to_containing_flags() {
    let props = properties(&[DEVICE_LOCAL, HOST_VISIBLE | HOST_COHERENT]);
    assert_eq!(vk_utils::find_memory_type_index(&requirements(0b11), &props, HOST_VISIBLE), Some(1));
    assert_eq!(vk_utils::find_memory_type_index(&requirements(0b01), &props, HOST_VISIBLE), None);
}

#[test]
fn memory_type_search_reads_all_slots() {
    // The first search of the Vulkan helpers walks all 32 slots, whatever
    // the type count says.
    let mut props = properties(&[DEVICE_LOCAL]);
    props.memory_types[31] = MemoryType { property_flags: HOST_VISIBLE, heap_index: 0 };
    assert_eq!(vk_utils::find_memory_type_index(&requirements(1 << 31), &props, HOST_VISIBLE), Some(31));
}

#[test]
fn spirv_words_in_machine_order() {
    let magic = vk_utils::SPIRV_MAGIC_NUMBER.to_ne_bytes();
    let mut data = magic.to_vec();
    data.extend_from_slice(&0x0001_0500u32.to_ne_bytes());
    let words = vk_utils::make_spirv(&data).unwrap();
    assert_eq!(words, vec![0x0723_0203, 0x0001_0500]);
    let wrong = [1u8, 0, 0, 0];
    assert_eq!(vk_utils::make_spirv(&wrong), Err(u32::from_ne_bytes([1, 0, 0, 0])));
}

#[test]
fn spirv_words_in_given_order() {
    let le = [0x03u8, 0x02, 0x23, 0x07, 0x00, 0x05, 0x01, 0x00];
    assert_eq!(vk_utils::make_spirv_in_order(&le, true), Ok(vec![0x0723_0203, 0x0001_0500]));
    assert_eq!(vk_utils::make_spirv_in_order(&le, false), Err(0x0302_2307));
    let be = [0x07u8, 0x23, 0x02, 0x03];
    assert_eq!(vk_utils::make_spirv_in_order(&be, false), Ok(vec![0x0723_0203]));
}

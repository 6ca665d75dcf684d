use cupio::memory::{
    find_memorytype_index, MemoryProperties, MemoryRequirements, MemoryType, HOST_COHERENT,
    HOST_VISIBLE,
};

fn props(flags: &[u32]) -> MemoryProperties {
    MemoryProperties {
        memory_types: flags
            .iter()
            .map(|&f| MemoryType { property_flags: f, heap_index: 0 })
            .collect(),
    }
}

fn req(bits: u32) -> MemoryRequirements {
    MemoryRequirements { size: 256, alignment: 16, memory_type_bits: bits }
}

const DEVICE_LOCAL: u32 = 0x1;
const UPLOAD: u32 = HOST_VISIBLE | HOST_COHERENT;

#[test]
fn picks_lowest_allowed_index_with_all_flags() {
    let p = props(&[DEVICE_LOCAL, UPLOAD, UPLOAD | DEVICE_LOCAL]);
    assert_eq!(find_memorytype_index(&req(0b111), &p, UPLOAD), Some(1));
}

#[test]
fn skips_slots_whose_bit_is_clear() {
    let p = props(&[UPLOAD, UPLOAD, UPLOAD]);
    assert_eq!(find_memorytype_index(&req(0b100), &p, UPLOAD), Some(2));
}

#[test]
fn superset_of_flags_is_accepted() {
    let p = props(&[DEVICE_LOCAL, UPLOAD | DEVICE_LOCAL | 0x8]);
    assert_eq!(find_memorytype_index(&req(0b11), &p, UPLOAD), Some(1));
}

#[test]
fn partial_flags_are_refused() {
    let p = props(&[HOST_VISIBLE, HOST_COHERENT]);
    assert_eq!(find_memorytype_index(&req(0b11), &p, UPLOAD), None);
}

#[test]
fn no_allowed_slot_gives_none() {
    let p = props(&[UPLOAD, UPLOAD]);
    assert_eq!(find_memorytype_index(&req(0b1100), &p, UPLOAD), None);
    assert_eq!(find_memorytype_index(&req(0b11), &props(&[]), UPLOAD), None);
}

#[test]
fn highest_slot_is_reachable() {
    let mut flags = vec![DEVICE_LOCAL; 32];
    flags[31] = UPLOAD;
    assert_eq!(find_memorytype_index(&req(u32::MAX), &props(&flags), UPLOAD), Some(31));
}

#[test]
fn slots_past_the_mask_width_are_never_chosen() {
    let mut flags = vec![DEVICE_LOCAL; 34];
    flags[33] = UPLOAD;
    assert_eq!(find_memorytype_index(&req(u32::MAX), &props(&flags), UPLOAD), None);
}

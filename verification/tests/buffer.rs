use vulkan_raytracing::buffer::{
    aligned_size, get_memory_type_index, plan_buffer_allocation, read_back, BufferResource,
    MemoryTypeError, BUFFER_USAGE_SHADER_DEVICE_ADDRESS, MEMORY_PROPERTY_DEVICE_LOCAL,
    MEMORY_PROPERTY_HOST_COHERENT, MEMORY_PROPERTY_HOST_VISIBLE,
};

#[test]
fn aligned_size_rounds_up_to_multiples() {
    assert_eq!(aligned_size(0, 4), 0);
    assert_eq!(aligned_size(1, 4), 4);
    assert_eq!(aligned_size(4, 4), 4);
    assert_eq!(aligned_size(5, 4), 8);
    assert_eq!(aligned_size(13, 8), 16);
    assert_eq!(aligned_size(16, 8), 16);
    assert_eq!(aligned_size(17, 16), 32);
    assert_eq!(aligned_size(1, 1), 1);
    assert_eq!(aligned_size(7, 1), 7);
    assert_eq!(aligned_size(255, 256), 256);
}

#[test]
fn aligned_size_is_idempotent() {
    for &(v, a) in &[(0u32, 4u32), (1, 4), (13, 8), (17, 16), (1000, 64), (4095, 4096)] {
        let once = aligned_size(v, a);
        assert_eq!(aligned_size(once, a), once);
    }
}

#[test]
fn memory_type_index_picks_lowest_matching() {
    // Types 0 and 2 both offer device-local memory; type 0 wins on order.
    let flags = vec![
        MEMORY_PROPERTY_DEVICE_LOCAL,
        MEMORY_PROPERTY_HOST_VISIBLE | MEMORY_PROPERTY_HOST_COHERENT,
        MEMORY_PROPERTY_DEVICE_LOCAL | MEMORY_PROPERTY_HOST_VISIBLE,
    ];
    assert_eq!(
        get_memory_type_index(&flags, 0b111, MEMORY_PROPERTY_DEVICE_LOCAL),
        Ok(0)
    );
}

#[test]
fn memory_type_index_respects_type_bitmask() {
    let flags = vec![
        MEMORY_PROPERTY_DEVICE_LOCAL,
        MEMORY_PROPERTY_DEVICE_LOCAL,
        MEMORY_PROPERTY_DEVICE_LOCAL,
    ];
    // Bit 0 is cleared, so type 0 is excluded despite matching flags.
    assert_eq!(
        get_memory_type_index(&flags, 0b110, MEMORY_PROPERTY_DEVICE_LOCAL),
        Ok(1)
    );
    assert_eq!(
        get_memory_type_index(&flags, 0b100, MEMORY_PROPERTY_DEVICE_LOCAL),
        Ok(2)
    );
}

#[test]
fn memory_type_index_requires_flag_superset() {
    let flags = vec![
        MEMORY_PROPERTY_HOST_VISIBLE,
        MEMORY_PROPERTY_HOST_VISIBLE | MEMORY_PROPERTY_HOST_COHERENT,
    ];
    assert_eq!(
        get_memory_type_index(
            &flags,
            0b11,
            MEMORY_PROPERTY_HOST_VISIBLE | MEMORY_PROPERTY_HOST_COHERENT
        ),
        Ok(1)
    );
}

#[test]
fn memory_type_index_fails_when_nothing_matches() {
    let flags = vec![MEMORY_PROPERTY_HOST_VISIBLE, MEMORY_PROPERTY_DEVICE_LOCAL];
    assert_eq!(
        get_memory_type_index(&flags, 0b11, MEMORY_PROPERTY_HOST_COHERENT),
        Err(MemoryTypeError::NoCompatibleMemoryType)
    );
    assert_eq!(
        get_memory_type_index(&flags, 0, MEMORY_PROPERTY_HOST_VISIBLE),
        Err(MemoryTypeError::NoCompatibleMemoryType)
    );
    let empty: Vec<u32> = Vec::new();
    assert_eq!(
        get_memory_type_index(&empty, 0b1, 0),
        Err(MemoryTypeError::NoCompatibleMemoryType)
    );
}

#[test]
fn buffer_allocation_plan_sets_device_address_flag() {
    let flags = vec![MEMORY_PROPERTY_DEVICE_LOCAL];
    let plan = plan_buffer_allocation(
        BUFFER_USAGE_SHADER_DEVICE_ADDRESS | 0x1,
        MEMORY_PROPERTY_DEVICE_LOCAL,
        &flags,
        4096,
        0b1,
    )
    .unwrap();
    assert_eq!(plan.allocation_size, 4096);
    assert_eq!(plan.memory_type_index, 0);
    assert!(plan.use_device_address_flag);

    let plan = plan_buffer_allocation(0x1, MEMORY_PROPERTY_DEVICE_LOCAL, &flags, 256, 0b1)
        .unwrap();
    assert!(!plan.use_device_address_flag);
}

#[test]
fn buffer_allocation_plan_propagates_selection_failure() {
    let flags = vec![MEMORY_PROPERTY_DEVICE_LOCAL];
    assert_eq!(
        plan_buffer_allocation(0, MEMORY_PROPERTY_HOST_VISIBLE, &flags, 16, 0b1),
        Err(MemoryTypeError::NoCompatibleMemoryType)
    );
}

#[test]
fn store_then_read_back_round_trips() {
    let buffer = BufferResource { buffer: 7, memory: 8, size: 8 };
    let mut contents = vec![0u8; 8];
    let payload = vec![0xde, 0xad, 0xbe, 0xef];
    buffer.store(&mut contents, &payload);
    assert_eq!(read_back(&contents, 4), payload);
    // Bytes past the payload are untouched.
    assert_eq!(&contents[4..], &[0u8, 0, 0, 0]);
}

#[test]
fn store_full_buffer_round_trips() {
    let buffer = BufferResource { buffer: 1, memory: 2, size: 5 };
    let mut contents = vec![9u8; 5];
    let payload = vec![1, 2, 3, 4, 5];
    buffer.store(&mut contents, &payload);
    assert_eq!(read_back(&contents, 5), payload);
}

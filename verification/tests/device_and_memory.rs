use renderer_core::device::{
    find_queue_family, pick_physical_device, Adapter, QueueFamily, DEVICE_TYPE_CPU,
    DEVICE_TYPE_DISCRETE_GPU, DEVICE_TYPE_INTEGRATED_GPU,
};
use renderer_core::memory::{
    find_memory_type, MEMORY_PROPERTY_DEVICE_LOCAL, MEMORY_PROPERTY_HOST_COHERENT,
    MEMORY_PROPERTY_HOST_VISIBLE,
};

fn family(graphics: bool, present: bool) -> QueueFamily {
    QueueFamily { supports_graphics: graphics, supports_present: present }
}

#[test]
fn first_family_with_both_capabilities_is_taken() {
    let families = vec![family(true, false), family(false, true), family(true, true)];
    assert_eq!(find_queue_family(&families), Some(2));
}

#[test]
fn no_qualifying_family_yields_none() {
    let families = vec![family(true, false), family(false, true)];
    assert_eq!(find_queue_family(&families), None);
}

#[test]
fn discrete_gpu_is_preferred_over_integrated() {
    let adapters = vec![
        Adapter { device_type: DEVICE_TYPE_INTEGRATED_GPU, queue_families: vec![family(true, true)] },
        Adapter { device_type: DEVICE_TYPE_DISCRETE_GPU, queue_families: vec![family(true, true)] },
    ];
    assert_eq!(pick_physical_device(&adapters), Some((1, 0)));
}

#[test]
fn adapter_without_usable_family_is_skipped() {
    let adapters = vec![
        Adapter { device_type: DEVICE_TYPE_DISCRETE_GPU, queue_families: vec![family(true, false)] },
        Adapter { device_type: DEVICE_TYPE_CPU, queue_families: vec![family(false, true), family(true, true)] },
    ];
    assert_eq!(pick_physical_device(&adapters), Some((1, 1)));
}

#[test]
fn no_usable_adapter_yields_none() {
    let adapters = vec![
        Adapter { device_type: DEVICE_TYPE_DISCRETE_GPU, queue_families: vec![family(true, false)] },
        Adapter { device_type: DEVICE_TYPE_INTEGRATED_GPU, queue_families: vec![] },
    ];
    assert_eq!(pick_physical_device(&adapters), None);
}

#[test]
fn ties_go_to_the_earlier_adapter() {
    let adapters = vec![
        Adapter { device_type: DEVICE_TYPE_DISCRETE_GPU, queue_families: vec![family(true, true)] },
        Adapter { device_type: DEVICE_TYPE_DISCRETE_GPU, queue_families: vec![family(true, true)] },
    ];
    assert_eq!(pick_physical_device(&adapters), Some((0, 0)));
}

#[test]
fn memory_type_must_pass_mask_and_properties() {
    // Type 0 is filtered out by the mask, type 1 lacks the properties,
    // type 2 satisfies both.
    let flags = vec![
        MEMORY_PROPERTY_DEVICE_LOCAL,
        MEMORY_PROPERTY_HOST_VISIBLE,
        MEMORY_PROPERTY_HOST_VISIBLE | MEMORY_PROPERTY_HOST_COHERENT,
    ];
    let required = MEMORY_PROPERTY_HOST_VISIBLE | MEMORY_PROPERTY_HOST_COHERENT;
    assert_eq!(find_memory_type(0b110, &flags, required), Some(2));
}

#[test]
fn first_satisfying_memory_type_is_taken() {
    let flags = vec![
        MEMORY_PROPERTY_DEVICE_LOCAL,
        MEMORY_PROPERTY_DEVICE_LOCAL,
    ];
    assert_eq!(find_memory_type(0b11, &flags, MEMORY_PROPERTY_DEVICE_LOCAL), Some(0));
}

#[test]
fn no_memory_type_yields_none() {
    let flags = vec![MEMORY_PROPERTY_DEVICE_LOCAL, MEMORY_PROPERTY_HOST_VISIBLE];
    assert_eq!(
        find_memory_type(0b01, &flags, MEMORY_PROPERTY_HOST_VISIBLE),
        None
    );
}

#[test]
fn extra_properties_beyond_required_are_fine() {
    let flags = vec![
        MEMORY_PROPERTY_DEVICE_LOCAL | MEMORY_PROPERTY_HOST_VISIBLE | MEMORY_PROPERTY_HOST_COHERENT,
    ];
    assert_eq!(find_memory_type(0b1, &flags, MEMORY_PROPERTY_HOST_VISIBLE), Some(0));
}

use alovak::Error;
use alovak::PhysicalDeviceCandidate;
use alovak::QueueFamilyDesc;
use alovak::select_physical_device;

fn family(flags: u32, present_support: bool) -> QueueFamilyDesc {
    QueueFamilyDesc { flags, queue_count: 1, present_support }
}

fn device(families: Vec<QueueFamilyDesc>) -> PhysicalDeviceCandidate {
    PhysicalDeviceCandidate { families, families_queried: true }
}

#[test]
fn selects_first_qualifying_device() {
    // Device 0 qualifies outright; device 1 would qualify too.
    let devices = vec![
        device(vec![family(1, true)]),
        device(vec![family(0, false), family(1, true)]),
    ];
    let (index, assignment) = select_physical_device(&devices).unwrap();
    assert_eq!(index, 0);
    assert_eq!(assignment.graphics_family, 0);
    assert_eq!(assignment.present_family, 0);
}

#[test]
fn reordering_changes_the_selection() {
    // The same two devices in the opposite order: the other one wins,
    // observable through its different family layout.
    let devices = vec![
        device(vec![family(0, false), family(1, true)]),
        device(vec![family(1, true)]),
    ];
    let (index, assignment) = select_physical_device(&devices).unwrap();
    assert_eq!(index, 0);
    assert_eq!(assignment.graphics_family, 1);
    assert_eq!(assignment.present_family, 1);
}

#[test]
fn skips_devices_missing_either_capability() {
    // Device 0 has graphics but no present support; device 1 has both.
    let devices = vec![
        device(vec![family(1, false)]),
        device(vec![family(0, false), family(1, true)]),
    ];
    let (index, assignment) = select_physical_device(&devices).unwrap();
    assert_eq!(index, 1);
    assert_eq!(assignment.graphics_family, 1);
    assert_eq!(assignment.present_family, 1);
}

#[test]
fn graphics_and_present_may_resolve_to_different_families() {
    // Family 0 is graphics-only, family 1 is present-only.
    let devices = vec![device(vec![family(1, false), family(0, true)])];
    let (index, assignment) = select_physical_device(&devices).unwrap();
    assert_eq!(index, 0);
    assert_eq!(assignment.graphics_family, 0);
    assert_eq!(assignment.present_family, 1);
}

#[test]
fn fails_when_no_device_qualifies() {
    let devices = vec![
        device(vec![family(1, false)]),
        device(vec![family(0, true)]),
    ];
    let err = select_physical_device(&devices).unwrap_err();
    assert_eq!(err, Error::NoSuitablePhysicalDevice);
}

#[test]
fn fails_on_empty_enumeration() {
    let devices: Vec<PhysicalDeviceCandidate> = Vec::new();
    let err = select_physical_device(&devices).unwrap_err();
    assert_eq!(err, Error::NoSuitablePhysicalDevice);
}

#[test]
fn unqueryable_device_is_a_queue_family_error() {
    let devices = vec![PhysicalDeviceCandidate {
        families: Vec::new(),
        families_queried: false,
    }];
    let err = select_physical_device(&devices).unwrap_err();
    assert_eq!(err, Error::NoSuitableQueueFamily);
}

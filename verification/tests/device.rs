use alovak::Error;
use alovak::QueueFamilyAssignment;
use alovak::complete_device;
use alovak::extensions_supported;
use alovak::has_swapchain_extension;
use alovak::plan_device_creation;

fn extensions() -> Vec<String> {
    vec!["VK_KHR_swapchain".to_owned()]
}

#[test]
fn extension_check_finds_the_swapchain_extension() {
    let exts = vec!["VK_EXT_debug_utils".to_owned(), "VK_KHR_swapchain".to_owned()];
    assert!(has_swapchain_extension(&exts));
}

#[test]
fn extension_check_rejects_a_list_without_it() {
    let exts = vec!["VK_EXT_debug_utils".to_owned()];
    assert!(!has_swapchain_extension(&exts));
    let empty: Vec<String> = Vec::new();
    assert!(!has_swapchain_extension(&empty));
}

#[test]
fn support_check_accepts_a_covering_device() {
    let required = vec!["VK_KHR_swapchain".to_owned()];
    let available = vec!["VK_KHR_swapchain".to_owned(), "VK_KHR_maintenance1".to_owned()];
    assert!(extensions_supported(&required, &available));
    let none_required: Vec<String> = Vec::new();
    assert!(extensions_supported(&none_required, &available));
}

#[test]
fn support_check_rejects_a_missing_extension() {
    let required = vec!["VK_KHR_swapchain".to_owned(), "VK_KHR_maintenance1".to_owned()];
    let available = vec!["VK_KHR_swapchain".to_owned()];
    assert!(!extensions_supported(&required, &available));
}

#[test]
fn shared_family_yields_a_single_queue_request() {
    let assignment = QueueFamilyAssignment { graphics_family: 2, present_family: 2 };
    let plan = plan_device_creation(assignment, extensions());
    assert_eq!(plan.queue_requests.len(), 1);
    assert_eq!(plan.queue_requests[0].family_index, 2);
    assert_eq!(plan.queue_requests[0].queue_count, 1);
    assert_eq!(plan.extensions, extensions());
}

#[test]
fn distinct_families_yield_two_queue_requests() {
    let assignment = QueueFamilyAssignment { graphics_family: 0, present_family: 3 };
    let plan = plan_device_creation(assignment, extensions());
    assert_eq!(plan.queue_requests.len(), 2);
    assert_eq!(plan.queue_requests[0].family_index, 0);
    assert_eq!(plan.queue_requests[1].family_index, 3);
    assert_eq!(plan.queue_requests[0].queue_count, 1);
    assert_eq!(plan.queue_requests[1].queue_count, 1);
}

#[test]
fn creation_error_carries_the_driver_code() {
    let assignment = QueueFamilyAssignment { graphics_family: 0, present_family: 0 };
    let handles = vec![Some(7)];
    let err = complete_device(assignment, Err(-3), &handles).unwrap_err();
    assert_eq!(err, Error::DeviceCreationFailed(-3));
}

#[test]
fn missing_queue_handle_is_a_retrieval_failure() {
    let assignment = QueueFamilyAssignment { graphics_family: 0, present_family: 1 };
    let handles = vec![Some(7), None];
    let err = complete_device(assignment, Ok(10), &handles).unwrap_err();
    assert_eq!(err, Error::QueueRetrievalFailed);
}

#[test]
fn shared_family_reuses_one_queue_handle() {
    let assignment = QueueFamilyAssignment { graphics_family: 1, present_family: 1 };
    let handles = vec![Some(7)];
    let ctx = complete_device(assignment, Ok(10), &handles).unwrap();
    assert_eq!(ctx.device, 10);
    assert_eq!(ctx.graphics_queue, 7);
    assert_eq!(ctx.present_queue, 7);
    assert_eq!(ctx.assignment, assignment);
}

#[test]
fn distinct_families_get_their_own_queue_handles() {
    let assignment = QueueFamilyAssignment { graphics_family: 0, present_family: 1 };
    let handles = vec![Some(7), Some(8)];
    let ctx = complete_device(assignment, Ok(10), &handles).unwrap();
    assert_eq!(ctx.graphics_queue, 7);
    assert_eq!(ctx.present_queue, 8);
}

use pilka::swapchain::{after_acquire, after_present, AcquireOutcome, PresentOutcome};
use pilka::queues::{
    choose_discrete_device, contains_all, create_queue_families, queue_create_families,
    select_device, select_queue_families, DeviceCandidate, QueueFamilyProperties,
    QUEUE_COMPUTE, QUEUE_GRAPHICS, QUEUE_TRANSFER,
};

fn family(flags: u32, count: u32) -> QueueFamilyProperties {
    QueueFamilyProperties { queue_flags: flags, queue_count: count }
}

const ALL: u32 = QUEUE_GRAPHICS | QUEUE_COMPUTE | QUEUE_TRANSFER;

#[test]
fn queue_families_main_and_transfer() {
    let families = vec![family(ALL, 16), family(QUEUE_TRANSFER, 2), family(QUEUE_COMPUTE | QUEUE_TRANSFER, 8)];
    assert_eq!(select_queue_families(&families, &vec![true, false, false]), Some((0, 1)));
    assert_eq!(select_queue_families(&families, &vec![false, false, false]), None);
}

#[test]
fn queue_families_need_dedicated_transfer() {
    let families = vec![family(ALL, 16), family(QUEUE_GRAPHICS | QUEUE_TRANSFER, 1)];
    assert_eq!(select_queue_families(&families, &vec![true, true]), None);
    let families = vec![family(QUEUE_GRAPHICS, 1), family(ALL, 1), family(QUEUE_TRANSFER, 1)];
    assert_eq!(select_queue_families(&families, &vec![true, true, true]), Some((1, 2)));
}

#[test]
fn device_selection_checks_extensions() {
    let required = vec!["VK_KHR_swapchain".to_string(), "VK_KHR_dynamic_rendering".to_string()];
    let good = || DeviceCandidate {
        extensions: Some(vec!["VK_KHR_dynamic_rendering".to_string(), "VK_KHR_swapchain".to_string()]),
        queue_families: vec![family(ALL, 1), family(QUEUE_TRANSFER, 1)],
        surface_support: vec![true, true],
    };
    let missing = DeviceCandidate {
        extensions: Some(vec!["VK_KHR_swapchain".to_string()]),
        queue_families: vec![family(ALL, 1), family(QUEUE_TRANSFER, 1)],
        surface_support: vec![true, true],
    };
    let unlisted = DeviceCandidate { extensions: None, queue_families: vec![], surface_support: vec![] };
    assert_eq!(select_device(&vec![missing, unlisted, good()], &required), Some((2, 0, 1)));
    assert_eq!(select_device(&vec![], &required), None);
    assert!(contains_all(&vec![], &vec![]));
    assert!(!contains_all(&vec![], &required));
}

#[test]
fn queue_families_last_graphics_wins() {
    let families = vec![family(ALL, 1), family(QUEUE_GRAPHICS | QUEUE_COMPUTE, 1), family(QUEUE_TRANSFER, 1), family(QUEUE_COMPUTE, 1)];
    let found = create_queue_families(&families, &None);
    assert_eq!(found.graphics_q_index, Some(1));
    assert_eq!(found.transfer_q_index, Some(2));
    assert_eq!(found.compute_q_index, Some(3));
    let found = create_queue_families(&families, &Some(vec![true, false, false, false]));
    assert_eq!(found.graphics_q_index, Some(0));
}

#[test]
fn queue_families_skip_empty_families() {
    let families = vec![family(ALL, 0), family(QUEUE_COMPUTE | QUEUE_GRAPHICS, 1)];
    let found = create_queue_families(&families, &None);
    assert_eq!(found.graphics_q_index, Some(1));
    assert_eq!(found.transfer_q_index, None);
    assert_eq!(found.compute_q_index, Some(1));
    assert_eq!(queue_create_families(found), vec![1, 0]);
}

#[test]
fn queue_create_list_adds_separate_compute() {
    let families = vec![family(ALL, 1), family(QUEUE_COMPUTE, 1)];
    let found = create_queue_families(&families, &None);
    assert_eq!(queue_create_families(found), vec![0, 0, 1]);
}

#[test]
fn discrete_device_choice() {
    assert_eq!(choose_discrete_device(&vec![1, 2, 4, 2, 3]), Some(3));
    assert_eq!(choose_discrete_device(&vec![1, 4]), None);
    assert_eq!(choose_discrete_device(&vec![]), None);
}

#[test]
fn swapchain_results_after_acquire_and_present() {
    assert_eq!(after_acquire(Ok(false)), AcquireOutcome::Draw { resize_first: false });
    assert_eq!(after_acquire(Ok(true)), AcquireOutcome::Draw { resize_first: true });
    assert_eq!(after_acquire(Err(-1_000_001_004)), AcquireOutcome::ResizeAndSkip);
    assert_eq!(after_acquire(Err(1_000_001_003)), AcquireOutcome::ResizeAndSkip);
    assert_eq!(after_acquire(Err(-4)), AcquireOutcome::Fail(-4));
    assert_eq!(after_present(Ok(false)), PresentOutcome::Done);
    assert_eq!(after_present(Ok(true)), PresentOutcome::Resize);
    assert_eq!(after_present(Err(-1_000_001_004)), PresentOutcome::Resize);
    assert_eq!(after_present(Err(-3)), PresentOutcome::Fail(-3));
}

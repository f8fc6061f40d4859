use frame_loop::device::{select_physical_device, DeviceCandidate, DeviceKind, QueueFamilyInfo};

fn family(graphics: bool, presents_to_surface: bool) -> QueueFamilyInfo {
    QueueFamilyInfo { graphics, presents_to_surface }
}

fn candidate(kind: DeviceKind, supports_extensions: bool, fams: Vec<QueueFamilyInfo>) -> DeviceCandidate {
    DeviceCandidate { supports_extensions, kind, queue_families: fams }
}

#[test]
fn prefers_discrete_over_integrated() {
    let cs = vec![
        candidate(DeviceKind::IntegratedGpu, true, vec![family(true, true)]),
        candidate(DeviceKind::DiscreteGpu, true, vec![family(false, true), family(true, true)]),
    ];
    assert_eq!(select_physical_device(&cs), Some((1, 1)));
}

#[test]
fn first_device_wins_a_tie() {
    let cs = vec![
        candidate(DeviceKind::Cpu, true, vec![family(true, true)]),
        candidate(DeviceKind::VirtualGpu, true, vec![family(true, false), family(true, true)]),
        candidate(DeviceKind::VirtualGpu, true, vec![family(true, true)]),
    ];
    assert_eq!(select_physical_device(&cs), Some((1, 1)));
}

#[test]
fn skips_devices_without_extensions() {
    let cs = vec![
        candidate(DeviceKind::DiscreteGpu, false, vec![family(true, true)]),
        candidate(DeviceKind::Other, true, vec![family(true, true)]),
    ];
    assert_eq!(select_physical_device(&cs), Some((1, 0)));
}

#[test]
fn skips_devices_without_a_presenting_graphics_family() {
    let cs = vec![
        candidate(DeviceKind::DiscreteGpu, true, vec![family(true, false), family(false, true)]),
        candidate(DeviceKind::IntegratedGpu, true, vec![family(false, false), family(true, true), family(true, true)]),
    ];
    assert_eq!(select_physical_device(&cs), Some((1, 1)));
}

#[test]
fn no_usable_device() {
    let cs = vec![
        candidate(DeviceKind::DiscreteGpu, true, vec![]),
        candidate(DeviceKind::IntegratedGpu, false, vec![family(true, true)]),
    ];
    assert_eq!(select_physical_device(&cs), None);
    assert_eq!(select_physical_device(&vec![]), None);
}

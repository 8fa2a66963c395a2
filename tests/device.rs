use frame_loop::{rank, select_device, DeviceInfo, DeviceKind};

fn dev(ext: bool, families: Vec<bool>, kind: DeviceKind) -> DeviceInfo {
    DeviceInfo { supports_extensions: ext, graphics_families: families, kind }
}

#[test]
fn ranks_follow_preference() {
    assert_eq!(rank(DeviceKind::DiscreteGpu), 0);
    assert_eq!(rank(DeviceKind::IntegratedGpu), 1);
    assert_eq!(rank(DeviceKind::VirtualGpu), 2);
    assert_eq!(rank(DeviceKind::Cpu), 3);
    assert_eq!(rank(DeviceKind::Other), 4);
}

#[test]
fn discrete_gpu_preferred_with_first_graphics_family() {
    let devices = vec![
        dev(true, vec![true], DeviceKind::IntegratedGpu),
        dev(true, vec![false, false, true, true], DeviceKind::DiscreteGpu),
        dev(true, vec![true], DeviceKind::Cpu),
    ];
    assert_eq!(select_device(&devices), Some((1, 2)));
}

#[test]
fn ineligible_devices_are_skipped() {
    let devices = vec![
        dev(false, vec![true], DeviceKind::DiscreteGpu),
        dev(true, vec![false], DeviceKind::DiscreteGpu),
        dev(true, vec![false, true], DeviceKind::VirtualGpu),
    ];
    assert_eq!(select_device(&devices), Some((2, 1)));
}

#[test]
fn first_of_equal_kind_wins() {
    let devices = vec![
        dev(true, vec![true], DeviceKind::Cpu),
        dev(true, vec![false, true], DeviceKind::IntegratedGpu),
        dev(true, vec![true], DeviceKind::IntegratedGpu),
    ];
    assert_eq!(select_device(&devices), Some((1, 1)));
}

#[test]
fn no_eligible_device() {
    assert_eq!(select_device(&Vec::new()), None);
    let devices = vec![
        dev(false, vec![true], DeviceKind::DiscreteGpu),
        dev(true, vec![], DeviceKind::Other),
    ];
    assert_eq!(select_device(&devices), None);
}

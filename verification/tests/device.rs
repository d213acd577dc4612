use candle_core::utils::{cuda_is_available, metal_is_available};
use candle_core::Device;
use polars_candle::candle_ext::embed::DeviceArg;
use polars_candle::candle_ext::utils::{get_device, select_device, settle, DeviceKind};

#[test]
fn test_get_device() {
    let device = get_device(true).device;
    assert!(matches!(device, Device::Cpu));

    if !cuda_is_available() && !metal_is_available() {
        let device = get_device(false).device;
        assert!(matches!(device, Device::Cpu));
    }

    if cuda_is_available() {
        let selection = get_device(false);
        assert!(matches!(selection.device, Device::Cuda(_)) || selection.fell_back);
    }

    if !cuda_is_available() && metal_is_available() {
        let selection = get_device(false);
        assert!(matches!(selection.device, Device::Metal(_)) || selection.fell_back);
    }
}

#[test]
fn get_device_cpu_on_request_is_no_fallback() {
    let selection = get_device(true);
    assert_eq!(selection.kind, DeviceKind::Cpu);
    assert!(!selection.fell_back);
    assert!(selection.device.is_cpu());
}

#[test]
fn get_device_says_when_it_fell_back() {
    let selection = get_device(false);
    assert_eq!(selection.fell_back, selection.kind == DeviceKind::Cpu);
    match selection.kind {
        DeviceKind::Cpu => assert!(selection.device.is_cpu()),
        DeviceKind::Cuda => assert!(selection.device.is_cuda()),
        DeviceKind::Metal => assert!(selection.device.is_metal()),
    }
    if !cuda_is_available() && !metal_is_available() {
        assert_eq!(selection.kind, DeviceKind::Cpu);
        assert!(selection.fell_back);
    }
}

#[test]
fn select_device_all_cases() {
    assert_eq!(select_device(true, false, false), DeviceKind::Cpu);
    assert_eq!(select_device(true, false, true), DeviceKind::Cpu);
    assert_eq!(select_device(true, true, false), DeviceKind::Cpu);
    assert_eq!(select_device(true, true, true), DeviceKind::Cpu);
    assert_eq!(select_device(false, false, false), DeviceKind::Cpu);
    assert_eq!(select_device(false, false, true), DeviceKind::Metal);
    assert_eq!(select_device(false, true, false), DeviceKind::Cuda);
    assert_eq!(select_device(false, true, true), DeviceKind::Cuda);
}

#[test]
fn device_arg_is_cpu() {
    assert!(DeviceArg::Cpu.is_cpu());
    assert!(!DeviceArg::Gpu.is_cpu());
}

#[test]
fn settle_all_cases() {
    for cpu in [false, true] {
        assert_eq!(settle(cpu, DeviceKind::Cuda, true), (DeviceKind::Cuda, false));
        assert_eq!(settle(cpu, DeviceKind::Metal, true), (DeviceKind::Metal, false));
        assert_eq!(settle(cpu, DeviceKind::Cuda, false), (DeviceKind::Cpu, !cpu));
        assert_eq!(settle(cpu, DeviceKind::Metal, false), (DeviceKind::Cpu, !cpu));
        assert_eq!(settle(cpu, DeviceKind::Cpu, false), (DeviceKind::Cpu, !cpu));
        assert_eq!(settle(cpu, DeviceKind::Cpu, true), (DeviceKind::Cpu, !cpu));
    }
}

#[test]
fn settle_after_select_device() {
    assert_eq!(settle(true, select_device(true, true, true), false), (DeviceKind::Cpu, false));
    assert_eq!(settle(false, select_device(false, false, false), false), (DeviceKind::Cpu, true));
    assert_eq!(settle(false, select_device(false, true, false), true), (DeviceKind::Cuda, false));
    assert_eq!(settle(false, select_device(false, true, false), false), (DeviceKind::Cpu, true));
    assert_eq!(settle(false, select_device(false, false, true), true), (DeviceKind::Metal, false));
}

#[test]
fn get_device_gives_a_device_of_the_kind_it_names() {
    for cpu in [false, true] {
        let selection = get_device(cpu);
        assert_eq!(selection.device.is_cpu(), selection.kind == DeviceKind::Cpu);
        assert_eq!(selection.device.is_cuda(), selection.kind == DeviceKind::Cuda);
        assert_eq!(selection.device.is_metal(), selection.kind == DeviceKind::Metal);
    }
}

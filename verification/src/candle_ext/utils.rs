//! Choosing the device a model runs on.

use candle_core::Device;
use vstd::prelude::*;

verus! {

/// A device of `candle_core`. The library hands it on and never looks inside.
#[verifier::external_type_specification]
#[verifier::external_body]
pub struct ExDevice(candle_core::Device);

/// The family of a device, as `Device::is_cpu`, `Device::is_cuda` and
/// `Device::is_metal` of `candle_core` tell it: the variant of the value.
pub uninterp spec fn device_family(device: Device) -> DeviceKind;

/// `candle_core::utils::cuda_is_available`: whether `candle_core` was built
/// with CUDA support. The answer depends on the build, so nothing is claimed
/// of it.
pub assume_specification[ candle_core::utils::cuda_is_available ]() -> (available: bool)
;

/// `candle_core::utils::metal_is_available`: whether `candle_core` was built
/// with Metal support. The answer depends on the build, so nothing is claimed
/// of it.
pub assume_specification[ candle_core::utils::metal_is_available ]() -> (available: bool)
;

/// `Device::new_cuda` of `candle_core`: opens the CUDA device with the given
/// ordinal, or says why it cannot. A device that it hands out is of the CUDA
/// family; whether it hands one out is not claimed.
///
/// This crate turns on none of the backends of `candle_core`, so the call
/// goes to its stand-in backend, which returns an error for every ordinal.
pub assume_specification[ candle_core::Device::new_cuda ](ordinal: usize) -> (device: Result<
    Device,
    candle_core::Error,
>)
    ensures
        device matches Ok(opened) ==> device_family(opened) == DeviceKind::Cuda,
;

/// `Device::new_metal` of `candle_core`: opens the Metal device with the
/// given ordinal, or says why it cannot. A device that it hands out is of
/// the Metal family; whether it hands one out is not claimed.
///
/// This crate turns on none of the backends of `candle_core`, so the call
/// goes to its stand-in backend, which returns an error for every ordinal.
/// A build that turns the `metal` feature on changes what is called: the
/// Metal backend of `candle_core` 0.4.1 panics where the machine has no
/// device of that ordinal, and whether it has is not known before the call.
pub assume_specification[ candle_core::Device::new_metal ](ordinal: usize) -> (device: Result<
    Device,
    candle_core::Error,
>)
    ensures
        device matches Ok(opened) ==> device_family(opened) == DeviceKind::Metal,
;

/// The variant `Device::Cpu` of `candle_core`: a device of the CPU family.
#[verifier::external_body]
fn cpu_device() -> (device: Device)
    ensures
        device_family(device) == DeviceKind::Cpu,
{
    Device::Cpu
}

/// The families of devices.
#[derive(Debug, Clone, Copy, PartialEq, Eq, Structural)]
pub enum DeviceKind {
    Cpu,
    Cuda,
    Metal,
}

/// The device to try: the CPU where it is asked for, else CUDA where that is
/// available, else Metal where that is available, else the CPU.
pub open spec fn preferred_device(cpu: bool, cuda: bool, metal: bool) -> DeviceKind {
    if cpu {
        DeviceKind::Cpu
    } else if cuda {
        DeviceKind::Cuda
    } else if metal {
        DeviceKind::Metal
    } else {
        DeviceKind::Cpu
    }
}

/// Decides which device to try, given what was asked for and which
/// accelerators are available.
pub fn select_device(cpu: bool, cuda: bool, metal: bool) -> (kind: DeviceKind)
    ensures
        kind == preferred_device(cpu, cuda, metal),
{
    if cpu {
        DeviceKind::Cpu
    } else if cuda {
        DeviceKind::Cuda
    } else if metal {
        DeviceKind::Metal
    } else {
        DeviceKind::Cpu
    }
}

/// What is given once a device has been tried: the device that was tried
/// where it is an accelerator and could be opened, else the CPU. The flag
/// says whether the CPU stands in for an accelerator that was asked for.
pub open spec fn settled(cpu: bool, tried: DeviceKind, opened: bool) -> (DeviceKind, bool) {
    if opened && tried != DeviceKind::Cpu {
        (tried, false)
    } else {
        (DeviceKind::Cpu, !cpu)
    }
}

/// Decides what is given once a device has been tried: falls back to the CPU
/// where the accelerator could not be opened.
pub fn settle(cpu: bool, tried: DeviceKind, opened: bool) -> (r: (DeviceKind, bool))
    ensures
        r == settled(cpu, tried, opened),
{
    match tried {
        DeviceKind::Cpu => (DeviceKind::Cpu, !cpu),
        _ => if opened {
            (tried, false)
        } else {
            (DeviceKind::Cpu, !cpu)
        },
    }
}

/// A device that is ready for use, and how it was come by.
pub struct DeviceSelection {
    /// The device itself.
    pub device: Device,
    /// The family of `device`.
    pub kind: DeviceKind,
    /// Whether an accelerator was asked for and the CPU is given in its
    /// place, because no accelerator is available or none could be opened.
    /// The caller may want to tell the user.
    pub fell_back: bool,
}

/// Selects the device to run on.
///
/// The CPU is given where it is asked for. Else the first available
/// accelerator is opened, CUDA before Metal (see `select_device`). Where none
/// is available, or the one that is cannot be opened, the CPU is given and
/// `fell_back` says so (see `settle`). Selection never fails.
///
/// Which accelerators are available, and whether one can be opened, is for
/// `candle_core` and the machine to say: the result is what `settle` makes of
/// some answer of theirs.
pub fn get_device(cpu: bool) -> (selection: DeviceSelection)
    ensures
        device_family(selection.device) == selection.kind,
        cpu ==> selection.kind == DeviceKind::Cpu,
        selection.fell_back == (!cpu && selection.kind == DeviceKind::Cpu),
        exists|cuda: bool, metal: bool, opened: bool|
            #![trigger settled(cpu, preferred_device(cpu, cuda, metal), opened)]
            (selection.kind, selection.fell_back) == settled(
                cpu,
                preferred_device(cpu, cuda, metal),
                opened,
            ),
{
    let cuda = candle_core::utils::cuda_is_available();
    let metal = candle_core::utils::metal_is_available();
    let tried = select_device(cpu, cuda, metal);
    let device = match tried {
        DeviceKind::Cpu => None,
        DeviceKind::Cuda => match Device::new_cuda(0) {
            Ok(device) => Some(device),
            Err(_) => None,
        },
        DeviceKind::Metal => match Device::new_metal(0) {
            Ok(device) => Some(device),
            Err(_) => None,
        },
    };
    let (kind, fell_back) = settle(cpu, tried, device.is_some());
    assert((kind, fell_back) == settled(cpu, preferred_device(cpu, cuda, metal), device is Some));
    match device {
        Some(device) => DeviceSelection { device, kind, fell_back },
        None => DeviceSelection { device: cpu_device(), kind, fell_back },
    }
}

} // verus!

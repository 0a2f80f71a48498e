//! Device and context model: the class and capability flags the
//! orchestration layer reads off an enumerated device, selection of the
//! first device of a required class, and image-format validation.

use vstd::prelude::*;

use crate::error::HostError;

verus! {

/// The class of accelerator a caller asks for.
#[derive(Clone, Copy, Debug, PartialEq, Eq, Structural)]
pub enum DeviceClass {
    Gpu,
    Cpu,
    Accelerator,
}

/// A pixel format: channel order paired with channel data type, both as
/// the device runtime's numeric format codes.
#[derive(Clone, Copy, Debug, PartialEq, Eq, Structural)]
pub struct ImageFormat {
    pub channel_order: u32,
    pub channel_data_type: u32,
}

/// What the orchestration layer reads off one enumerated device: its
/// identity, class, and the capability flags that steer the pipelines.
#[derive(Clone, Copy, Debug, PartialEq, Eq, Structural)]
pub struct DeviceInfo {
    /// The runtime's opaque device identifier.
    pub id: u64,
    pub class: DeviceClass,
    /// Whether the device supports image memory objects.
    pub image_support: bool,
    /// Whether shared-memory regions are fine-grained: host writes are
    /// visible to the device without explicit map/unmap synchronization.
    pub svm_fine_grained: bool,
    /// The device limit on one global work-size dimension.
    pub max_work_size: usize,
}

/// Whether some device in `devices` has the required class.
pub open spec fn has_device_of_class(devices: Seq<DeviceInfo>, class: DeviceClass) -> bool {
    exists|i: int| 0 <= i < devices.len() && devices[i].class == class
}

/// Selects the first enumerated device of the required class, in stable
/// enumeration order. Fails with `NoDeviceFound` exactly when no device
/// matches; on success the returned device's class matches the request.
pub fn select_device(devices: &Vec<DeviceInfo>, class: DeviceClass) -> (r: Result<
    DeviceInfo,
    HostError,
>)
    ensures
        r is Ok <==> has_device_of_class(devices@, class),
        r matches Ok(d) ==> exists|i: int|
            0 <= i < devices@.len() && d == devices@[i] && d.class == class && (forall|j: int|
                0 <= j < i ==> devices@[j].class != class),
        r is Err ==> r matches Err(HostError::NoDeviceFound),
{
    let n = devices.len();
    let mut i: usize = 0;
    while i < n
        invariant
            n == devices@.len(),
            i <= n,
            forall|j: int| 0 <= j < i ==> devices@[j].class != class,
        decreases n - i,
    {
        if devices[i].class == class {
            return Ok(devices[i]);
        }
        i = i + 1;
    }
    Err(HostError::NoDeviceFound)
}

/// Whether `format` occurs in the supported set.
pub open spec fn format_supported(supported: Seq<ImageFormat>, format: ImageFormat) -> bool {
    exists|i: int| 0 <= i < supported.len() && supported[i] == format
}

/// Validates that the required pixel format is in the device's supported
/// set for the intended usage. Fails with `UnsupportedImageFormat` exactly
/// when the format is absent.
pub fn validate_image_format(supported: &Vec<ImageFormat>, required: ImageFormat) -> (r: Result<
    (),
    HostError,
>)
    ensures
        r is Ok <==> format_supported(supported@, required),
        r is Err ==> r matches Err(HostError::UnsupportedImageFormat),
{
    let n = supported.len();
    let mut i: usize = 0;
    while i < n
        invariant
            n == supported@.len(),
            i <= n,
            forall|j: int| 0 <= j < i ==> supported@[j] != required,
        decreases n - i,
    {
        if supported[i] == required {
            return Ok(());
        }
        i = i + 1;
    }
    Err(HostError::UnsupportedImageFormat)
}

/// Maps the device's answer to context creation onto the error taxonomy:
/// `ContextCreationFailed` exactly when the device rejected creation.
pub fn context_creation_outcome(created: bool) -> (r: Result<(), HostError>)
    ensures
        r is Ok <==> created,
        r is Err ==> r matches Err(HostError::ContextCreationFailed),
{
    if created {
        Ok(())
    } else {
        Err(HostError::ContextCreationFailed)
    }
}

} // verus!

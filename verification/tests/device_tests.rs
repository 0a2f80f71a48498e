use oclhost::device::DeviceClass;
use oclhost::device::DeviceInfo;
use oclhost::device::ImageFormat;
use oclhost::device::context_creation_outcome;
use oclhost::device::select_device;
use oclhost::device::validate_image_format;
use oclhost::error::HostError;

fn device(id: u64, class: DeviceClass) -> DeviceInfo {
    DeviceInfo {
        id,
        class,
        image_support: true,
        svm_fine_grained: false,
        max_work_size: 65536,
    }
}

#[test]
fn selects_first_device_of_class() {
    let devices = vec![
        device(10, DeviceClass::Cpu),
        device(20, DeviceClass::Gpu),
        device(30, DeviceClass::Gpu),
    ];
    let d = select_device(&devices, DeviceClass::Gpu).unwrap();
    assert_eq!(d.id, 20);
    assert_eq!(d.class, DeviceClass::Gpu);
}

#[test]
fn fails_when_no_device_matches() {
    let devices = vec![device(10, DeviceClass::Cpu)];
    let r = select_device(&devices, DeviceClass::Gpu);
    assert!(matches!(r, Err(HostError::NoDeviceFound)));
}

#[test]
fn fails_on_empty_enumeration() {
    let devices: Vec<DeviceInfo> = Vec::new();
    let r = select_device(&devices, DeviceClass::Accelerator);
    assert!(matches!(r, Err(HostError::NoDeviceFound)));
}

#[test]
fn context_creation_maps_to_error() {
    assert!(context_creation_outcome(true).is_ok());
    assert!(matches!(
        context_creation_outcome(false),
        Err(HostError::ContextCreationFailed)
    ));
}

#[test]
fn accepts_supported_format() {
    let rgba_u8 = ImageFormat { channel_order: 0x10B5, channel_data_type: 0x10D2 };
    let other = ImageFormat { channel_order: 0x10B0, channel_data_type: 0x10DE };
    let supported = vec![other, rgba_u8];
    assert!(validate_image_format(&supported, rgba_u8).is_ok());
}

#[test]
fn rejects_absent_format() {
    let rgba_u8 = ImageFormat { channel_order: 0x10B5, channel_data_type: 0x10D2 };
    let other = ImageFormat { channel_order: 0x10B0, channel_data_type: 0x10DE };
    let supported = vec![other];
    let r = validate_image_format(&supported, rgba_u8);
    assert!(matches!(r, Err(HostError::UnsupportedImageFormat)));
}

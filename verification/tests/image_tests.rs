use oclhost::device::ImageFormat;
use oclhost::error::HostError;
use oclhost::image::FillColor;
use oclhost::image::fill_region;
use oclhost::image::run_image_pipeline;
use oclhost::sequence::KernelArg;
use oclhost::sequence::OpKind;
use oclhost::sequence::Sequencer;
use oclhost::sequence::check_order;

const RGBA_U8: ImageFormat = ImageFormat { channel_order: 0x10B5, channel_data_type: 0x10D2 };

const FILL: FillColor = FillColor { r: 11, g: 22, b: 33, a: 44 };

#[test]
fn image_pipeline_scenario() {
    let width = 1024usize;
    let height = 1024usize;
    let mut seq = Sequencer::new();
    let supported = vec![RGBA_U8];
    // The kernel's device-side output, as a test double: a constant wash.
    let kernel_output = vec![7u8; 4 * width * height];
    let buf = run_image_pipeline(
        &mut seq,
        &supported,
        RGBA_U8,
        width,
        height,
        65536,
        true,
        &kernel_output,
        3,
        3,
        4,
        4,
        FILL,
    )
    .unwrap();
    assert_eq!(buf.len(), 1024 * 1024 * 4);
    // The filled sub-rectangle holds the constant color per pixel.
    for y in 3..7 {
        for x in 3..7 {
            let i = 4 * (y * width + x);
            assert_eq!(&buf[i..i + 4], &[11, 22, 33, 44]);
        }
    }
    // Outside the rectangle the kernel's output is untouched.
    assert_eq!(&buf[0..4], &[7, 7, 7, 7]);
    let corner = 4 * ((height - 1) * width + (width - 1));
    assert_eq!(&buf[corner..corner + 4], &[7, 7, 7, 7]);
    // The kernel runs over the image dimensions with the image as its
    // sole argument; the fill waits on the kernel, the readback on the
    // fill, and the readback's token is awaited before the return.
    assert_eq!(seq.ops.len(), 3);
    match &seq.ops[0].kind {
        OpKind::KernelDispatch { work_sizes, args } => {
            assert_eq!(work_sizes, &vec![1024, 1024]);
            assert_eq!(args, &vec![KernelArg::ImageObject]);
        }
        _ => panic!("expected a kernel dispatch"),
    }
    assert!(matches!(seq.ops[1].kind, OpKind::FillImage));
    assert_eq!(seq.ops[1].wait_on, vec![0]);
    assert!(matches!(seq.ops[2].kind, OpKind::ReadImage));
    assert_eq!(seq.ops[2].wait_on, vec![1]);
    assert_eq!(seq.waited, vec![2]);
    assert!(check_order(&seq.ops, &vec![0, 1, 2]));
    assert!(!check_order(&seq.ops, &vec![0, 2, 1]));
}

#[test]
fn unsupported_format_fails_before_allocation() {
    let mut seq = Sequencer::new();
    let supported = vec![ImageFormat { channel_order: 0x10B0, channel_data_type: 0x10DE }];
    let kernel_output = vec![0u8; 4 * 8 * 8];
    let r = run_image_pipeline(
        &mut seq,
        &supported,
        RGBA_U8,
        8,
        8,
        65536,
        true,
        &kernel_output,
        0,
        0,
        1,
        1,
        FILL,
    );
    assert!(matches!(r, Err(HostError::UnsupportedImageFormat)));
    // Nothing was allocated or submitted.
    assert!(seq.ops.is_empty());
}

#[test]
fn allocation_failure_is_surfaced() {
    let mut seq = Sequencer::new();
    let supported = vec![RGBA_U8];
    let kernel_output = vec![0u8; 4 * 8 * 8];
    let r = run_image_pipeline(
        &mut seq,
        &supported,
        RGBA_U8,
        8,
        8,
        65536,
        false,
        &kernel_output,
        0,
        0,
        1,
        1,
        FILL,
    );
    assert!(matches!(r, Err(HostError::ImageAllocationFailed)));
    assert!(seq.ops.is_empty());
}

#[test]
fn oversized_work_size_is_rejected() {
    let mut seq = Sequencer::new();
    let supported = vec![RGBA_U8];
    let kernel_output = vec![0u8; 4 * 8 * 8];
    let r = run_image_pipeline(
        &mut seq,
        &supported,
        RGBA_U8,
        8,
        8,
        4,
        true,
        &kernel_output,
        0,
        0,
        1,
        1,
        FILL,
    );
    assert!(matches!(r, Err(HostError::InvalidWorkSize)));
    assert!(seq.ops.is_empty());
}

#[test]
fn fill_region_touches_only_the_rectangle() {
    let pixels = vec![1u8; 4 * 4 * 4];
    let out = fill_region(&pixels, 4, 4, 1, 1, 2, 2, FILL);
    assert_eq!(out.len(), pixels.len());
    for y in 0..4usize {
        for x in 0..4usize {
            let i = 4 * (y * 4 + x);
            if (1..3).contains(&x) && (1..3).contains(&y) {
                assert_eq!(&out[i..i + 4], &[11, 22, 33, 44]);
            } else {
                assert_eq!(&out[i..i + 4], &[1, 1, 1, 1]);
            }
        }
    }
}

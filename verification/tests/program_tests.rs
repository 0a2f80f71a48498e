use oclhost::error::DeviceStage;
use oclhost::error::HostError;
use oclhost::program::bind_argument_outcome;
use oclhost::program::build_outcome;
use oclhost::program::device_op_outcome;
use oclhost::program::find_kernel;

#[test]
fn finds_first_matching_kernel() {
    let names: Vec<Vec<u8>> = vec![
        b"saxpy_float".to_vec(),
        b"colorize".to_vec(),
        b"inclusive_scan_int".to_vec(),
    ];
    assert_eq!(find_kernel(&names, &b"colorize".to_vec()).unwrap(), 1);
    assert_eq!(find_kernel(&names, &b"saxpy_float".to_vec()).unwrap(), 0);
}

#[test]
fn missing_kernel_is_reported_with_its_name() {
    let names: Vec<Vec<u8>> = vec![b"saxpy_float".to_vec()];
    let r = find_kernel(&names, &b"colorize".to_vec());
    match r {
        Err(HostError::KernelNotFound { name }) => assert_eq!(name, b"colorize".to_vec()),
        _ => panic!("expected KernelNotFound"),
    }
}

#[test]
fn build_log_means_failure() {
    assert!(build_outcome(None).is_ok());
    let r = build_outcome(Some(String::from("error: undefined symbol")));
    match r {
        Err(HostError::ProgramBuildFailed { log }) => {
            assert_eq!(log, "error: undefined symbol");
        }
        _ => panic!("expected ProgramBuildFailed"),
    }
}

#[test]
fn argument_binding_outcome_maps_rejection() {
    assert!(bind_argument_outcome(true).is_ok());
    assert!(matches!(
        bind_argument_outcome(false),
        Err(HostError::ArgumentBindingFailed)
    ));
}

#[test]
fn device_operation_failure_keeps_its_stage() {
    assert!(device_op_outcome(true, DeviceStage::Enqueue).is_ok());
    let r = device_op_outcome(false, DeviceStage::UnmapMemory);
    match r {
        Err(HostError::DeviceOperationFailed { stage }) => {
            assert_eq!(stage, DeviceStage::UnmapMemory);
        }
        _ => panic!("expected DeviceOperationFailed"),
    }
}

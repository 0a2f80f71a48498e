use oclhost::error::HostError;
use oclhost::sequence::KernelArg;
use oclhost::sequence::OpKind;
use oclhost::sequence::Sequencer;
use oclhost::sequence::check_order;

fn plain_dispatch() -> OpKind {
    OpKind::KernelDispatch { work_sizes: vec![1], args: Vec::new() }
}

#[test]
fn tokens_are_issued_in_submission_order() {
    let mut seq = Sequencer::new();
    let t0 = seq.submit(plain_dispatch(), Vec::new());
    let t1 = seq.submit(OpKind::FillImage, vec![t0]);
    let t2 = seq.submit(OpKind::ReadImage, vec![t1]);
    assert_eq!((t0, t1, t2), (0, 1, 2));
    assert_eq!(seq.ops.len(), 3);
    assert_eq!(seq.ops[1].wait_on, vec![0]);
    assert_eq!(seq.ops[2].wait_on, vec![1]);
}

#[test]
fn dispatch_rejects_zero_dimension() {
    let mut seq = Sequencer::new();
    let r = seq.dispatch_kernel(vec![1024, 0], Vec::new(), 65536, Vec::new());
    assert!(matches!(r, Err(HostError::InvalidWorkSize)));
    assert!(seq.ops.is_empty());
}

#[test]
fn dispatch_rejects_oversized_dimension() {
    let mut seq = Sequencer::new();
    let r = seq.dispatch_kernel(vec![70000], Vec::new(), 65536, Vec::new());
    assert!(matches!(r, Err(HostError::InvalidWorkSize)));
}

#[test]
fn dispatch_rejects_bad_dimension_count() {
    let mut seq = Sequencer::new();
    let none: Vec<usize> = Vec::new();
    assert!(matches!(
        seq.dispatch_kernel(none, Vec::new(), 65536, Vec::new()),
        Err(HostError::InvalidWorkSize)
    ));
    assert!(matches!(
        seq.dispatch_kernel(vec![1, 1, 1, 1], Vec::new(), 65536, Vec::new()),
        Err(HostError::InvalidWorkSize)
    ));
}

#[test]
fn dispatch_accepts_valid_work_sizes() {
    let mut seq = Sequencer::new();
    let t = seq
        .dispatch_kernel(vec![1024, 1024], vec![KernelArg::ImageObject], 65536, Vec::new())
        .unwrap();
    assert_eq!(t, 0);
    assert_eq!(seq.ops.len(), 1);
    match &seq.ops[0].kind {
        OpKind::KernelDispatch { work_sizes, args } => {
            assert_eq!(work_sizes, &vec![1024, 1024]);
            assert_eq!(args, &vec![KernelArg::ImageObject]);
        }
        _ => panic!("expected a kernel dispatch"),
    }
}

#[test]
fn waits_are_recorded_in_order() {
    let mut seq = Sequencer::new();
    let t0 = seq.submit(OpKind::FillImage, Vec::new());
    let t1 = seq.submit(OpKind::ReadImage, vec![t0]);
    seq.wait(t1);
    seq.wait(t0);
    assert_eq!(seq.waited, vec![1, 0]);
}

/// A test double that records completion orders: for a dependent
/// operation, every admitted order completes the prerequisite first.
#[test]
fn dependency_precedes_dependent_in_every_order() {
    let mut seq = Sequencer::new();
    let t0 = seq.submit(plain_dispatch(), Vec::new());
    let _t1 = seq.submit(OpKind::FillImage, vec![t0]);
    // The prerequisite's effect strictly precedes the dependent's.
    assert!(check_order(&seq.ops, &vec![0, 1]));
    // An interleaving that runs the dependent first is not admitted.
    assert!(!check_order(&seq.ops, &vec![1, 0]));
}

#[test]
fn order_checker_rejects_duplicates_and_bad_lengths() {
    let mut seq = Sequencer::new();
    let _ = seq.submit(plain_dispatch(), Vec::new());
    let _ = seq.submit(OpKind::ReadImage, Vec::new());
    assert!(check_order(&seq.ops, &vec![1, 0]));
    assert!(!check_order(&seq.ops, &vec![0, 0]));
    assert!(!check_order(&seq.ops, &vec![0]));
    assert!(!check_order(&seq.ops, &vec![0, 2]));
}

#[test]
fn order_checker_admits_only_dependency_respecting_interleavings() {
    // Two independent heads and one operation waiting on both.
    let mut seq = Sequencer::new();
    let a = seq.submit(plain_dispatch(), Vec::new());
    let b = seq.submit(plain_dispatch(), Vec::new());
    let _c = seq.submit(OpKind::ReadImage, vec![a, b]);
    assert!(check_order(&seq.ops, &vec![0, 1, 2]));
    assert!(check_order(&seq.ops, &vec![1, 0, 2]));
    assert!(!check_order(&seq.ops, &vec![0, 2, 1]));
    assert!(!check_order(&seq.ops, &vec![2, 0, 1]));
}

//! The program builder: a program is compiled from source text by the
//! device compiler, and named kernels are extracted from it. The
//! compiler's verdict arrives from outside; this module pins how each
//! verdict maps onto the error taxonomy and how an entry point is looked
//! up among the program's kernel names.

use vstd::prelude::*;

use crate::error::DeviceStage;
use crate::error::HostError;

verus! {

/// Byte-wise equality of two names.
fn bytes_eq(a: &Vec<u8>, b: &Vec<u8>) -> (r: bool)
    ensures
        r == (a@ == b@),
{
    let n = a.len();
    if n != b.len() {
        return false;
    }
    let mut i: usize = 0;
    while i < n
        invariant
            n == a@.len(),
            n == b@.len(),
            i <= n,
            forall|j: int| 0 <= j < i ==> a@[j] == b@[j],
        decreases n - i,
    {
        if a[i] != b[i] {
            return false;
        }
        i = i + 1;
    }
    proof {
        assert(a@ =~= b@);
    }
    true
}

/// Looks the requested entry point up among the built program's kernel
/// names. Returns the position of the first name equal to `name`; fails
/// with `KernelNotFound`, carrying the requested name, exactly when no
/// name matches.
pub fn find_kernel(kernel_names: &Vec<Vec<u8>>, name: &Vec<u8>) -> (r: Result<usize, HostError>)
    ensures
        r is Ok <==> exists|i: int| 0 <= i < kernel_names@.len() && kernel_names@[i]@ == name@,
        r matches Ok(i) ==> i < kernel_names@.len() && kernel_names@[i as int]@ == name@ && (forall|
            j: int,
        | 0 <= j < i ==> kernel_names@[j]@ != name@),
        r matches Err(e) ==> (e matches HostError::KernelNotFound { name: missing } && missing@
            == name@),
{
    let n = kernel_names.len();
    let mut i: usize = 0;
    while i < n
        invariant
            n == kernel_names@.len(),
            i <= n,
            forall|j: int| 0 <= j < i ==> kernel_names@[j]@ != name@,
        decreases n - i,
    {
        if bytes_eq(&kernel_names[i], name) {
            return Ok(i);
        }
        i = i + 1;
    }
    Err(HostError::KernelNotFound { name: name.clone() })
}

/// Maps the device compiler's verdict onto the error taxonomy: a build
/// log is a failure and is propagated verbatim in `ProgramBuildFailed`;
/// a partially built program is never continued with.
pub fn build_outcome(build_log: Option<String>) -> (r: Result<(), HostError>)
    ensures
        r is Ok <==> build_log is None,
        build_log matches Some(log) ==> (r matches Err(HostError::ProgramBuildFailed { log: l })
            && l == log),
{
    match build_log {
        None => Ok(()),
        Some(log) => Err(HostError::ProgramBuildFailed { log }),
    }
}

/// Maps the runtime's verdict on binding one positional kernel argument:
/// a type mismatch surfaces immediately as `ArgumentBindingFailed`, not
/// at dispatch.
pub fn bind_argument_outcome(accepted: bool) -> (r: Result<(), HostError>)
    ensures
        r is Ok <==> accepted,
        r is Err ==> r matches Err(HostError::ArgumentBindingFailed),
{
    if accepted {
        Ok(())
    } else {
        Err(HostError::ArgumentBindingFailed)
    }
}

/// Maps the device runtime's verdict on one enqueue, map, unmap, or read
/// onto the error taxonomy, keeping the stage at which it failed.
pub fn device_op_outcome(succeeded: bool, stage: DeviceStage) -> (r: Result<(), HostError>)
    ensures
        r is Ok <==> succeeded,
        !succeeded ==> (r matches Err(HostError::DeviceOperationFailed { stage: s }) && s
            == stage),
{
    if succeeded {
        Ok(())
    } else {
        Err(HostError::DeviceOperationFailed { stage })
    }
}

} // verus!

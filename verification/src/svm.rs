//! The shared-memory pipeline: allocate host/device shared regions, copy
//! the input in, dispatch a kernel on raw shared pointers, and copy the
//! results out, mapping and unmapping around host access exactly when the
//! regions are coarse-grained.

use vstd::prelude::*;

verus! {

/// One of the two shared regions a raw-pointer kernel argument names.
#[derive(Clone, Copy, Debug, PartialEq, Eq, Structural)]
pub enum SvmArg {
    /// The region the kernel writes its results into.
    ResultsPointer,
    /// The region holding the copied-in input.
    InputPointer,
}

/// One host-visible step of a shared-memory pipeline run, in the order
/// the pipeline performs them.
#[derive(Clone, Copy, Debug, PartialEq, Eq, Structural)]
pub enum SvmStep {
    /// Blocking map of the input region for host writing.
    MapForWrite,
    /// Host copy of the input array into the shared region.
    CopyIn,
    /// Enqueued unmap of the input region.
    UnmapInput,
    /// Host wait on the input unmap's completion token.
    WaitUnmapInput,
    /// Kernel dispatch over the shared regions: its global work size and
    /// which region each positional raw-pointer argument names.
    DispatchKernel { work_size: usize, first_arg: SvmArg, second_arg: SvmArg },
    /// Host wait on the kernel's completion token.
    WaitKernel,
    /// Blocking map of the results region for host reading.
    MapForRead,
    /// Enqueued unmap of the results region.
    UnmapResults,
    /// Host wait on the results unmap's completion token.
    WaitUnmapResults,
    /// Host copy of the results out of the shared region.
    CopyOut,
}

/// The dispatch step of a run over `n` elements: the iteration space is
/// one work item per element, the results pointer is the first argument
/// and the input pointer the second.
pub open spec fn dispatch_step(n: usize) -> SvmStep {
    SvmStep::DispatchKernel {
        work_size: n,
        first_arg: SvmArg::ResultsPointer,
        second_arg: SvmArg::InputPointer,
    }
}

/// The exact step sequence of a run over `n` fine-grained elements: host
/// writes are visible to the device without mapping, so none occurs.
pub open spec fn fine_grained_steps(n: usize) -> Seq<SvmStep> {
    seq![SvmStep::CopyIn, dispatch_step(n), SvmStep::WaitKernel, SvmStep::CopyOut]
}

/// The exact step sequence of a run over `n` coarse-grained elements:
/// each host access is bracketed by a map and an awaited unmap.
pub open spec fn coarse_grained_steps(n: usize) -> Seq<SvmStep> {
    seq![
        SvmStep::MapForWrite,
        SvmStep::CopyIn,
        SvmStep::UnmapInput,
        SvmStep::WaitUnmapInput,
        dispatch_step(n),
        SvmStep::WaitKernel,
        SvmStep::MapForRead,
        SvmStep::UnmapResults,
        SvmStep::WaitUnmapResults,
        SvmStep::CopyOut,
    ]
}

/// Runs the shared-memory pipeline against one device outcome. The caller
/// supplies the input array, what the dispatched kernel left in the
/// results region, and the context's runtime capability; the pipeline
/// returns the results copied out of the region, unchanged, and the steps
/// it performed: the kernel is dispatched once over one work item per
/// element, with the results pointer as its first raw argument and the
/// input pointer as its second, and the capability decides only the
/// mapping discipline, never the data.
pub fn run_svm_pipeline(input: &Vec<i32>, kernel_output: &Vec<i32>, fine_grained: bool) -> (r: (
    Vec<i32>,
    Vec<SvmStep>,
))
    requires
        kernel_output@.len() == input@.len(),
    ensures
        r.0@ == kernel_output@,
        fine_grained ==> r.1@ == fine_grained_steps(input@.len() as usize),
        !fine_grained ==> r.1@ == coarse_grained_steps(input@.len() as usize),
{
    let mut steps: Vec<SvmStep> = Vec::new();
    if !fine_grained {
        steps.push(SvmStep::MapForWrite);
    }
    steps.push(SvmStep::CopyIn);
    if !fine_grained {
        steps.push(SvmStep::UnmapInput);
        steps.push(SvmStep::WaitUnmapInput);
    }
    steps.push(
        SvmStep::DispatchKernel {
            work_size: input.len(),
            first_arg: SvmArg::ResultsPointer,
            second_arg: SvmArg::InputPointer,
        },
    );
    steps.push(SvmStep::WaitKernel);
    if !fine_grained {
        steps.push(SvmStep::MapForRead);
        steps.push(SvmStep::UnmapResults);
        steps.push(SvmStep::WaitUnmapResults);
    }
    steps.push(SvmStep::CopyOut);
    let n = kernel_output.len();
    let mut results: Vec<i32> = Vec::new();
    let mut i: usize = 0;
    while i < n
        invariant
            n == kernel_output@.len(),
            i <= n,
            results@.len() == i,
            forall|j: int| 0 <= j < i ==> results@[j] == kernel_output@[j],
        decreases n - i,
    {
        results.push(kernel_output[i]);
        i = i + 1;
    }
    proof {
        assert(results@ =~= kernel_output@);
        if fine_grained {
            assert(steps@ =~= fine_grained_steps(input@.len() as usize));
        } else {
            assert(steps@ =~= coarse_grained_steps(input@.len() as usize));
        }
    }
    (results, steps)
}

/// The running total up to (and excluding) position `i`.
pub open spec fn prefix_sum(s: Seq<i32>, i: int) -> int
    decreases i,
{
    if i <= 0 {
        0
    } else {
        prefix_sum(s, i - 1) + s[i - 1]
    }
}

/// The inclusive scan of `input`: element `i` of the result is the sum of
/// the first `i + 1` input elements. This is the host-side reference for
/// the scan kernel the shared-memory scenario dispatches.
pub fn inclusive_scan(input: &Vec<i32>) -> (out: Vec<i32>)
    requires
        forall|i: int| 0 <= i <= input@.len() ==> i32::MIN <= #[trigger] prefix_sum(input@, i)
            <= i32::MAX,
    ensures
        out@.len() == input@.len(),
        forall|i: int| 0 <= i < out@.len() ==> out@[i] == prefix_sum(input@, i + 1),
{
    let n = input.len();
    let mut out: Vec<i32> = Vec::new();
    let mut acc: i32 = 0;
    let mut i: usize = 0;
    while i < n
        invariant
            n == input@.len(),
            i <= n,
            out@.len() == i,
            acc == prefix_sum(input@, i as int),
            forall|j: int| 0 <= j <= n ==> i32::MIN <= #[trigger] prefix_sum(input@, j) <= i32::MAX,
            forall|j: int| 0 <= j < i ==> out@[j] == prefix_sum(input@, j + 1),
        decreases n - i,
    {
        proof {
            assert(prefix_sum(input@, i + 1) == prefix_sum(input@, i as int) + input@[i as int]);
        }
        acc = acc + input[i];
        out.push(acc);
        i = i + 1;
    }
    out
}

} // verus!

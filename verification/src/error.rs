use vstd::prelude::*;

verus! {

/// The device-runtime stage at which an operation failed.
#[derive(Clone, Copy, Debug, PartialEq, Eq, Structural)]
pub enum DeviceStage {
    Enqueue,
    MapMemory,
    UnmapMemory,
    ReadBack,
    FillRegion,
    WaitCompletion,
}

/// Every failure the orchestration layer can surface. Each fallible step
/// returns exactly one of these; capability-gated branches (fine- vs
/// coarse-grained shared memory) are control flow, never errors.
#[derive(Debug)]
pub enum HostError {
    /// No device of the required class was enumerated.
    NoDeviceFound,
    /// The selected device rejected context creation.
    ContextCreationFailed,
    /// The device compiler rejected the program source; `log` is its output.
    ProgramBuildFailed { log: String },
    /// The requested entry point does not exist in the built program.
    KernelNotFound { name: Vec<u8> },
    /// A kernel argument did not match the expected positional type.
    ArgumentBindingFailed,
    /// The required pixel format is absent from the device's supported set.
    UnsupportedImageFormat,
    /// The device could not allocate the requested image.
    ImageAllocationFailed,
    /// A global work size was empty, zero, or over the device limit.
    InvalidWorkSize,
    /// A program binary whose byte length is not a multiple of the word size.
    MalformedBinary,
    /// The program binary's word stream is structurally invalid.
    ParseError { offset: usize },
    /// An enqueue, map, unmap, or read failed in the device runtime.
    DeviceOperationFailed { stage: DeviceStage },
}

} // verus!

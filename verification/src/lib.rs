//! Host-side orchestration for dispatching compute kernels onto an
//! accelerator device: device selection, program building, binary
//! introspection, and the buffer/image and shared-memory pipelines.

pub mod codec;
pub mod device;
pub mod error;
pub mod image;
pub mod program;
pub mod sequence;
pub mod spirv;
pub mod svm;

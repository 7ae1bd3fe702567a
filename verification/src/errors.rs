//! The error taxonomy of a dispatcher run.
//!
//! Every fallible step of the pipeline is fatal: it raises exactly one of
//! these errors and the run ends with no partial result.

use vstd::prelude::*;

verus! {

/// The four ways a dispatcher run can fail, one per fallible pipeline step:
/// no GPU on the host, a shader that does not compile, a kernel name absent
/// from the compiled library, and a pipeline that cannot be built from the
/// kernel function.
#[derive(Clone, Copy, Debug, PartialEq, Eq, Structural)]
pub enum DispatchError {
    DeviceUnavailable,
    ShaderCompileFailure,
    KernelNotFound,
    PipelineCreationFailure,
}

} // verus!

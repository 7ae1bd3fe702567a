//! Decision logic for an element-wise GPU compute dispatcher.
//!
//! A dispatcher run takes a kernel name, an input array and a requested
//! output length, and proceeds through a fixed linear pipeline: acquire a
//! device, compile the shader source, look the kernel up, build a pipeline,
//! allocate one input and one output buffer, dispatch a grid of threads
//! covering the output, wait, and copy the output buffer back. Every
//! decision along that pipeline — which kernel a name denotes, how the
//! thread grid is shaped, how large the buffers are, which error a failed
//! step raises, and how many elements come back — is made here and verified.
//! The calls into the GPU framework itself, and the floating-point element
//! transforms the shaders apply, live outside this crate.

pub mod dispatch;
pub mod errors;
pub mod grid;
pub mod stage;
pub mod text;

pub use errors::DispatchError;

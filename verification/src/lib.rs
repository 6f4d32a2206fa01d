//! A verified host-side dispatch pipeline for GPU matrix multiplication.
//!
//! Matrices are row-major views over 32-bit entries. The library plans and
//! records a compute dispatch (buffer creation, bind groups, workgroup grid,
//! copy to a staging buffer, submission) against `wgpu`, and models the
//! asynchronous map/poll/receive readback protocol as a verified state
//! machine.

pub mod dispatch;
pub mod error;
pub mod gpu;
pub mod matrix;
pub mod pipeline;
pub mod readback;

use vstd::prelude::*;

verus! {

/// Errors surfaced by the dispatch pipeline.
///
/// `DimensionMismatch` is raised before any device resource is created and is
/// recoverable by the caller. `DeviceAcquisitionFailure` means no compatible
/// compute device could be obtained. `MapFailure` means the asynchronous
/// buffer mapping reported an error, so no data is host-visible.
/// `ChannelDropped` means the one-shot completion slot was abandoned before
/// delivery, so the awaiting call resolved to an error instead of hanging.
#[derive(Clone, Copy, Debug, PartialEq, Eq, Structural)]
pub enum GpuError {
    DimensionMismatch,
    DeviceAcquisitionFailure,
    MapFailure,
    ChannelDropped,
}

} // verus!

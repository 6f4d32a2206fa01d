use vstd::prelude::*;

use crate::error::GpuError;

verus! {

/// States of the staging-buffer mapping protocol. `Mapped` is the terminal
/// success state; `MapFailed` is the terminal error state, in which no
/// memory is host-visible.
#[derive(Clone, Copy, Debug, PartialEq, Eq, Structural)]
pub enum MapState {
    Unmapped,
    MapRequested,
    Mapped,
    MapFailed,
}

/// What the awaiting caller observes from the one-shot completion slot:
/// the device's mapping callback delivered success, delivered an error, or
/// the slot was dropped before anything was delivered.
#[derive(Clone, Copy, Debug, PartialEq, Eq, Structural)]
pub enum ReadbackSignal {
    Success,
    Failure,
    Dropped,
}

/// The state a pending map transitions to when it resolves with `signal`.
pub open spec fn spec_resolve_state(signal: ReadbackSignal) -> MapState {
    match signal {
        ReadbackSignal::Success => MapState::Mapped,
        ReadbackSignal::Failure => MapState::MapFailed,
        ReadbackSignal::Dropped => MapState::MapFailed,
    }
}

/// The outcome reported to the awaiting caller when a pending map resolves
/// with `signal`.
pub open spec fn spec_resolve_outcome(signal: ReadbackSignal) -> Result<(), GpuError> {
    match signal {
        ReadbackSignal::Success => Ok(()),
        ReadbackSignal::Failure => Err(GpuError::MapFailure),
        ReadbackSignal::Dropped => Err(GpuError::ChannelDropped),
    }
}

/// Tracks the map state of one staging buffer. Exactly one map operation may
/// be in flight per buffer, and mapped data may be exposed only once the
/// machine has reached `Mapped`.
pub struct ReadbackChannel {
    state: MapState,
}

impl ReadbackChannel {
    /// The current protocol state.
    pub closed spec fn state(self) -> MapState {
        self.state
    }

    /// A fresh channel for a buffer that has never been mapped.
    pub fn new() -> (r: ReadbackChannel)
        ensures
            r.state() == MapState::Unmapped,
    {
        ReadbackChannel { state: MapState::Unmapped }
    }

    /// The current protocol state, for callers driving the device.
    pub fn current_state(&self) -> (r: MapState)
        ensures
            r == self.state(),
    {
        self.state
    }

    /// Records that the caller requested an asynchronous read-mapping of the
    /// staging buffer's full range. The buffer must be unmapped: issuing a
    /// second map request on a pending or mapped buffer is not allowed.
    pub fn request_map(&mut self)
        requires
            old(self).state() == MapState::Unmapped,
        ensures
            final(self).state() == MapState::MapRequested,
    {
        self.state = MapState::MapRequested;
    }

    /// Resolves the pending map with what came out of the one-shot
    /// completion slot: success reaches `Mapped`, a reported mapping error
    /// reaches `MapFailed` with `MapFailure`, and an abandoned slot reaches
    /// `MapFailed` with `ChannelDropped` instead of blocking forever.
    pub fn resolve(&mut self, signal: ReadbackSignal) -> (r: Result<(), GpuError>)
        requires
            old(self).state() == MapState::MapRequested,
        ensures
            final(self).state() == spec_resolve_state(signal),
            r == spec_resolve_outcome(signal),
    {
        match signal {
            ReadbackSignal::Success => {
                self.state = MapState::Mapped;
                Ok(())
            },
            ReadbackSignal::Failure => {
                self.state = MapState::MapFailed;
                Err(GpuError::MapFailure)
            },
            ReadbackSignal::Dropped => {
                self.state = MapState::MapFailed;
                Err(GpuError::ChannelDropped)
            },
        }
    }

    /// Records that the caller released (unmapped) the mapped view, after
    /// which the staging buffer may be reused or reclaimed.
    pub fn release(&mut self)
        requires
            old(self).state() == MapState::Mapped,
        ensures
            final(self).state() == MapState::Unmapped,
    {
        self.state = MapState::Unmapped;
    }

    /// Gates readback data on the protocol state: hands the mapped words
    /// through only when the machine reached `Mapped`, and never exposes
    /// anything in any other state.
    pub fn expose(&self, words: Vec<u32>) -> (r: Option<Vec<u32>>)
        ensures
            r is Some <==> self.state() == MapState::Mapped,
            r is Some ==> r->0@ == words@,
    {
        match self.state {
            MapState::Mapped => Some(words),
            _ => None,
        }
    }
}

/// Readback never exposes memory in the `MapFailed` state: a pending map
/// resolves successfully exactly when it reaches `Mapped`, so every
/// resolution that ends in `MapFailed` reports an error, and `expose`
/// returns data only in `Mapped`.
pub proof fn lemma_no_exposure_without_mapped()
    ensures
        forall|s: ReadbackSignal|
            spec_resolve_outcome(s) is Ok <==> spec_resolve_state(s) == MapState::Mapped,
        forall|s: ReadbackSignal|
            spec_resolve_state(s) == MapState::MapFailed ==> spec_resolve_outcome(s) is Err,
{
}

/// Dropping the one-shot completion slot before the device reports
/// completion resolves the waiting call to `ChannelDropped` (and the machine
/// to `MapFailed`) rather than blocking indefinitely.
pub proof fn lemma_dropped_slot_resolves_to_error()
    ensures
        spec_resolve_outcome(ReadbackSignal::Dropped) == Err::<(), GpuError>(
            GpuError::ChannelDropped,
        ),
        spec_resolve_state(ReadbackSignal::Dropped) == MapState::MapFailed,
{
}

} // verus!

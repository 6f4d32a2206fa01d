use gpu_matmul::error::GpuError;
use gpu_matmul::readback::{MapState, ReadbackChannel, ReadbackSignal};

#[test]
fn success_path_reaches_mapped_and_exposes_data() {
    let mut channel = ReadbackChannel::new();
    assert_eq!(channel.current_state(), MapState::Unmapped);
    channel.request_map();
    assert_eq!(channel.current_state(), MapState::MapRequested);
    let r = channel.resolve(ReadbackSignal::Success);
    assert_eq!(r, Ok(()));
    assert_eq!(channel.current_state(), MapState::Mapped);
    let words = vec![1u32, 2, 3];
    assert_eq!(channel.expose(words.clone()), Some(words));
    channel.release();
    assert_eq!(channel.current_state(), MapState::Unmapped);
}

#[test]
fn failure_path_exposes_nothing() {
    let mut channel = ReadbackChannel::new();
    channel.request_map();
    let r = channel.resolve(ReadbackSignal::Failure);
    assert_eq!(r, Err(GpuError::MapFailure));
    assert_eq!(channel.current_state(), MapState::MapFailed);
    assert_eq!(channel.expose(vec![1u32, 2, 3]), None);
}

#[test]
fn dropped_slot_resolves_to_channel_dropped() {
    let mut channel = ReadbackChannel::new();
    channel.request_map();
    let r = channel.resolve(ReadbackSignal::Dropped);
    assert_eq!(r, Err(GpuError::ChannelDropped));
    assert_eq!(channel.current_state(), MapState::MapFailed);
    assert_eq!(channel.expose(vec![7u32]), None);
}

#[test]
fn nothing_is_exposed_before_mapping_completes() {
    let channel = ReadbackChannel::new();
    assert_eq!(channel.expose(vec![1u32]), None);
    let mut pending = ReadbackChannel::new();
    pending.request_map();
    assert_eq!(pending.expose(vec![1u32]), None);
}

#[test]
fn dropped_oneshot_slot_resolves_instead_of_blocking() {
    // A device that never signals completion: the completion slot is
    // dropped before anything is sent. The receive must resolve (to None)
    // rather than suspend forever, and the state machine must turn that
    // into ChannelDropped.
    let runtime = tokio::runtime::Builder::new_current_thread().build().unwrap();
    let (sender, receiver) = futures_intrusive::channel::shared::oneshot_channel::<Result<
        (),
        (),
    >>();
    drop(sender);
    let received = runtime.block_on(receiver.receive());
    assert!(received.is_none());
    let signal = match received {
        Some(Ok(())) => ReadbackSignal::Success,
        Some(Err(())) => ReadbackSignal::Failure,
        None => ReadbackSignal::Dropped,
    };
    let mut channel = ReadbackChannel::new();
    channel.request_map();
    assert_eq!(channel.resolve(signal), Err(GpuError::ChannelDropped));
}

#[test]
fn delivered_oneshot_success_reaches_mapped() {
    let runtime = tokio::runtime::Builder::new_current_thread().build().unwrap();
    let (sender, receiver) = futures_intrusive::channel::shared::oneshot_channel::<Result<
        (),
        (),
    >>();
    sender.send(Ok(())).unwrap();
    let received = runtime.block_on(receiver.receive());
    let signal = match received {
        Some(Ok(())) => ReadbackSignal::Success,
        Some(Err(())) => ReadbackSignal::Failure,
        None => ReadbackSignal::Dropped,
    };
    let mut channel = ReadbackChannel::new();
    channel.request_map();
    assert_eq!(channel.resolve(signal), Ok(()));
    assert_eq!(channel.current_state(), MapState::Mapped);
}

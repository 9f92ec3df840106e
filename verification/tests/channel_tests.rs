use soundscape::channel::FrameChannel;
use soundscape::frame::AudioFrame;

fn frame(tag: u64) -> AudioFrame {
    AudioFrame {
        bass_energy: tag,
        mid_energy: 0,
        treble_energy: 0,
        peak_frequency: tag * 1000,
        overall_energy: tag,
    }
}

#[test]
fn backpressure_drops_the_frame_that_finds_the_channel_full() {
    // Three sends into capacity 2 leave exactly 2 retrievable frames: the
    // first two. The send that finds the channel full is refused and its
    // frame, the newest, is dropped silently.
    let mut channel = FrameChannel::with_capacity(2);
    assert!(channel.try_send(frame(1)));
    assert!(channel.try_send(frame(2)));
    assert!(!channel.try_send(frame(3)));
    assert_eq!(channel.try_recv(), Some(frame(1)));
    assert_eq!(channel.try_recv(), Some(frame(2)));
    assert_eq!(channel.try_recv(), None);
}

#[test]
fn delivery_is_fifo() {
    let mut channel = FrameChannel::with_capacity(4);
    assert!(channel.try_send(frame(10)));
    assert!(channel.try_send(frame(20)));
    assert_eq!(channel.try_recv(), Some(frame(10)));
    assert!(channel.try_send(frame(30)));
    assert_eq!(channel.try_recv(), Some(frame(20)));
    assert_eq!(channel.try_recv(), Some(frame(30)));
    assert_eq!(channel.try_recv(), None);
}

#[test]
fn drain_latest_keeps_only_the_last_pending_frame() {
    let mut channel = FrameChannel::with_capacity(2);
    assert!(channel.try_send(frame(1)));
    assert!(channel.try_send(frame(2)));
    assert_eq!(channel.drain_latest(), Some(frame(2)));
    assert_eq!(channel.drain_latest(), None);
    assert_eq!(channel.try_recv(), None);
}

#[test]
fn drained_channel_accepts_new_frames_again() {
    let mut channel = FrameChannel::with_capacity(2);
    assert!(channel.try_send(frame(1)));
    assert!(channel.try_send(frame(2)));
    assert!(!channel.try_send(frame(3)));
    assert_eq!(channel.drain_latest(), Some(frame(2)));
    assert!(channel.try_send(frame(4)));
    assert_eq!(channel.drain_latest(), Some(frame(4)));
}

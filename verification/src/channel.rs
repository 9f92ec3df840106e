//! Bounded, latest-value-wins delivery of frames from the analyzer to the
//! engine's tick loop.
//!
//! The producer's send never blocks: on a full channel the new frame is
//! dropped silently, so staleness is bounded by the channel depth but the
//! caller is never held up. The consumer drains everything pending each
//! tick and keeps only the last frame.

use vstd::prelude::*;
use crate::frame::AudioFrame;

verus! {

/// A bounded FIFO channel of audio frames. Both ends are held here, so the
/// channel is never disconnected while the value lives.
#[verifier::external_body]
pub struct FrameChannel {
    sender: crossbeam_channel::Sender<AudioFrame>,
    receiver: crossbeam_channel::Receiver<AudioFrame>,
}

/// The frames pending in the channel, oldest first.
pub uninterp spec fn channel_frames(c: FrameChannel) -> Seq<AudioFrame>;

/// The capacity the channel was created with.
pub uninterp spec fn channel_capacity(c: FrameChannel) -> nat;

impl FrameChannel {
    /// Relies on crossbeam_channel::bounded: a FIFO channel that holds at
    /// most `capacity` pending messages. Zero capacity would mean
    /// rendezvous delivery, which this contract does not cover.
    #[verifier::external_body]
    pub fn with_capacity(capacity: usize) -> (c: FrameChannel)
        requires
            1 <= capacity,
        ensures
            channel_frames(c) == Seq::<AudioFrame>::empty(),
            channel_capacity(c) == capacity,
    {
        let (sender, receiver) = crossbeam_channel::bounded(capacity);
        FrameChannel { sender, receiver }
    }

    /// Relies on crossbeam_channel::Sender::try_send: appends the message
    /// without blocking when the channel has room, and returns an error,
    /// dropping the message, when it is full.
    #[verifier::external_body]
    pub fn try_send(&mut self, frame: AudioFrame) -> (accepted: bool)
        ensures
            channel_capacity(*final(self)) == channel_capacity(*old(self)),
            channel_frames(*old(self)).len() < channel_capacity(*old(self)) ==> accepted
                && channel_frames(*final(self)) == channel_frames(*old(self)).push(frame),
            channel_frames(*old(self)).len() >= channel_capacity(*old(self)) ==> !accepted
                && channel_frames(*final(self)) == channel_frames(*old(self)),
    {
        self.sender.try_send(frame).is_ok()
    }

    /// Relies on crossbeam_channel::Receiver::try_recv: removes and
    /// returns the oldest pending message without blocking, if there is
    /// one.
    #[verifier::external_body]
    pub fn try_recv(&mut self) -> (r: Option<AudioFrame>)
        ensures
            channel_capacity(*final(self)) == channel_capacity(*old(self)),
            channel_frames(*old(self)).len() > 0 ==> r == Some(channel_frames(*old(self))[0])
                && channel_frames(*final(self)) == channel_frames(*old(self)).drop_first(),
            channel_frames(*old(self)).len() == 0 ==> r is None && channel_frames(*final(self))
                == channel_frames(*old(self)),
    {
        match self.receiver.try_recv() {
            Ok(f) => Some(f),
            Err(_) => None,
        }
    }

    /// Drain every pending frame and keep only the most recent: the
    /// latest-value-wins discipline of the tick loop. Returns `None`
    /// exactly when nothing was pending; intermediate frames are skipped
    /// by design.
    pub fn drain_latest(&mut self) -> (r: Option<AudioFrame>)
        ensures
            channel_capacity(*final(self)) == channel_capacity(*old(self)),
            channel_frames(*final(self)).len() == 0,
            channel_frames(*old(self)).len() == 0 <==> r is None,
            channel_frames(*old(self)).len() > 0 ==> r == Some(channel_frames(*old(self)).last()),
    {
        let ghost orig = channel_frames(*self);
        let ghost cap0 = channel_capacity(*self);
        let mut latest: Option<AudioFrame> = None;
        let ghost mut k: int = 0;
        loop
            invariant
                0 <= k <= orig.len(),
                channel_frames(*self) =~= orig.skip(k),
                channel_capacity(*self) == cap0,
                latest == (if k == 0 {
                    Option::<AudioFrame>::None
                } else {
                    Some(orig[k - 1])
                }),
            ensures
                channel_frames(*self).len() == 0,
                channel_capacity(*self) == cap0,
                latest == (if orig.len() == 0 {
                    Option::<AudioFrame>::None
                } else {
                    Some(orig.last())
                }),
            decreases orig.len() - k,
        {
            match self.try_recv() {
                Some(f) => {
                    latest = Some(f);
                    proof {
                        k = k + 1;
                        assert(channel_frames(*self) =~= orig.skip(k));
                    }
                },
                None => {
                    break ;
                },
            }
        }
        latest
    }
}

} // verus!

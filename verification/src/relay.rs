//! The step from the session layer to the subscribers: one coded frame is
//! transcoded and published.

use crate::fanout::Broadcaster;
use crate::frame::CodedFrame;
use crate::transcode::{relay_frame, transcode};
use vstd::prelude::*;

verus! {

/// Transcodes `frame` and publishes the relay frame to the subscribers of
/// `hub`. Returns the number of subscribers that the frame went to; without a
/// subscriber the frame is dropped, which is no failure.
pub fn process_video_frame(
    frame: CodedFrame,
    codec: &str,
    config: &[u8],
    hub: &mut Broadcaster,
) -> (delivered: usize)
    requires
        old(hub).wf(),
        old(hub)@.log.len() < u64::MAX,
    ensures
        final(hub).wf(),
        final(hub)@ == old(hub)@.publish(relay_frame(frame@, codec@, config@)),
        delivered == if old(hub)@.accepts() {
            old(hub)@.subscribers
        } else {
            0
        },
{
    let relayed = transcode(&frame, codec, config);
    hub.publish(relayed)
}

} // verus!

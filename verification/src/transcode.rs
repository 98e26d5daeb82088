//! The transcoder: one coded frame in, one relay frame out.

use crate::annexb::{push_start_code, start_code};
use crate::frame::{CodedFrame, CodedFrameView, Metadata, MetadataView, RelayFrame, RelayFrameView};
use vstd::prelude::*;
use vstd::slice::slice_subrange;

verus! {

/// Smallest payload length that holds a four-byte length prefix.
pub const PREFIX_LEN: usize = 4;

/// The payload with its length prefix replaced by a start code. A payload too
/// short to hold the prefix stays as it is.
pub open spec fn reframed(payload: Seq<u8>) -> Seq<u8> {
    if payload.len() > 3 {
        start_code() + payload.skip(4)
    } else {
        payload
    }
}

/// The configuration bytes that go ahead of a frame: the whole packet on a
/// random access point, nothing on any other frame.
pub open spec fn config_prefix(frame: CodedFrameView, config: Seq<u8>) -> Seq<u8> {
    if frame.is_random_access_point {
        config
    } else {
        Seq::empty()
    }
}

/// The payload of the relay frame made from `frame`.
pub open spec fn relay_payload(frame: CodedFrameView, config: Seq<u8>) -> Seq<u8> {
    config_prefix(frame, config) + reframed(frame.data)
}

/// The metadata of the relay frame made from `frame`.
pub open spec fn relay_metadata(frame: CodedFrameView, codec: Seq<char>) -> MetadataView {
    MetadataView { ts: frame.timestamp, codec, keyframe: frame.is_random_access_point }
}

/// The relay frame made from `frame`, for a stream in codec `codec` whose
/// configuration packet is `config`.
pub open spec fn relay_frame(
    frame: CodedFrameView,
    codec: Seq<char>,
    config: Seq<u8>,
) -> RelayFrameView {
    RelayFrameView {
        metadata: relay_metadata(frame, codec),
        payload: relay_payload(frame, config),
    }
}

/// Appends to `out` the payload with its length prefix turned into a start
/// code.
pub fn append_reframed(out: &mut Vec<u8>, payload: &[u8])
    ensures
        final(out)@ == old(out)@ + reframed(payload@),
{
    if payload.len() > 3 {
        push_start_code(out);
        out.extend_from_slice(slice_subrange(payload, PREFIX_LEN, payload.len()));
    } else {
        out.extend_from_slice(payload);
    }
    assert(out@ =~= old(out)@ + reframed(payload@));
}

/// Turns one coded frame into the relay frame that subscribers receive.
pub fn transcode(frame: &CodedFrame, codec: &str, config: &[u8]) -> (r: RelayFrame)
    ensures
        r@ == relay_frame(frame@, codec@, config@),
{
    let metadata = Metadata::new(frame.timestamp, codec, frame.is_random_access_point);
    let mut payload: Vec<u8> = Vec::new();
    if frame.is_random_access_point {
        payload.extend_from_slice(config);
    }
    assert(payload@ =~= config_prefix(frame@, config@));
    append_reframed(&mut payload, frame.data.as_slice());
    RelayFrame::new(metadata, payload)
}

/// Whatever stood in the first four bytes of a payload of more than three
/// bytes, the part of the relay payload behind the configuration prefix opens
/// with a start code and goes on with the payload from its fifth byte.
pub proof fn lemma_long_payload_opens_with_start_code(frame: CodedFrameView, config: Seq<u8>)
    requires
        frame.data.len() > 3,
    ensures
        relay_payload(frame, config).len() == config_prefix(frame, config).len()
            + frame.data.len(),
        relay_payload(frame, config).take(config_prefix(frame, config).len() as int)
            == config_prefix(frame, config),
        relay_payload(frame, config).skip(config_prefix(frame, config).len() as int).take(4)
            == start_code(),
        relay_payload(frame, config).skip(config_prefix(frame, config).len() as int).skip(4)
            == frame.data.skip(4),
{
    let prefix = config_prefix(frame, config);
    let out = relay_payload(frame, config);
    assert(out.take(prefix.len() as int) =~= prefix);
    assert(out.skip(prefix.len() as int) =~= reframed(frame.data));
    assert(reframed(frame.data).take(4) =~= start_code());
    assert(reframed(frame.data).skip(4) =~= frame.data.skip(4));
}

/// A payload of three bytes or fewer passes through untouched: behind the
/// configuration prefix the relay payload is the payload itself.
pub proof fn lemma_short_payload_passes_through(frame: CodedFrameView, config: Seq<u8>)
    requires
        frame.data.len() <= 3,
    ensures
        relay_payload(frame, config) == config_prefix(frame, config) + frame.data,
        relay_payload(frame, config).take(config_prefix(frame, config).len() as int)
            == config_prefix(frame, config),
        relay_payload(frame, config).skip(config_prefix(frame, config).len() as int)
            == frame.data,
{
    let prefix = config_prefix(frame, config);
    let out = relay_payload(frame, config);
    assert(out.take(prefix.len() as int) =~= prefix);
    assert(out.skip(prefix.len() as int) =~= frame.data);
}

/// The payload of a frame tagged as keyframe starts with the configuration
/// packet, and the tag stands exactly on the random access points.
pub proof fn lemma_keyframe_carries_config(
    frame: CodedFrameView,
    codec: Seq<char>,
    config: Seq<u8>,
)
    ensures
        relay_frame(frame, codec, config).metadata.keyframe == frame.is_random_access_point,
        relay_frame(frame, codec, config).metadata.keyframe ==> config.is_prefix_of(
            relay_frame(frame, codec, config).payload,
        ),
        !relay_frame(frame, codec, config).metadata.keyframe ==> relay_frame(
            frame,
            codec,
            config,
        ).payload == reframed(frame.data),
{
    let out = relay_payload(frame, config);
    if frame.is_random_access_point {
        assert(out.subrange(0, config.len() as int) =~= config);
    } else {
        assert(out =~= reframed(frame.data));
    }
}

/// Transcoding keeps no state: equal frames under equal codec and equal
/// configuration give equal relay frames, byte for byte, however often it is
/// done.
pub proof fn lemma_transcode_repeatable(
    first: CodedFrameView,
    second: CodedFrameView,
    first_codec: Seq<char>,
    second_codec: Seq<char>,
    first_config: Seq<u8>,
    second_config: Seq<u8>,
)
    requires
        first == second,
        first_codec == second_codec,
        first_config == second_config,
    ensures
        relay_frame(first, first_codec, first_config) == relay_frame(
            second,
            second_codec,
            second_config,
        ),
        relay_frame(first, first_codec, first_config).payload == relay_frame(
            second,
            second_codec,
            second_config,
        ).payload,
        relay_frame(first, first_codec, first_config).metadata == relay_frame(
            second,
            second_codec,
            second_config,
        ).metadata,
{
}

} // verus!

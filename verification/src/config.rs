//! The configuration packet: both parameter sets of a video sub-stream, each
//! behind a start code, ready to be sent ahead of a random access point.

use crate::annexb::{push_start_code, start_code};
use crate::search::{
    first_match, has_match, is_first_match, lemma_first_match_is, lemma_first_match_sound,
};
use vstd::prelude::*;
use vstd::slice::slice_subrange;

verus! {

/// Mask that isolates the unit type in the first byte of a coded unit.
pub const UNIT_TYPE_MASK: u8 = 0x1F;

/// Unit type of the first parameter set (the sequence parameters).
pub const FIRST_SET_TYPE: u8 = 7;

/// Unit type of the second parameter set (the picture parameters).
pub const SECOND_SET_TYPE: u8 = 8;

/// Whether `byte` announces a unit of type `unit_type`.
pub open spec fn announces(byte: u8, unit_type: u8) -> bool {
    byte & UNIT_TYPE_MASK == unit_type
}

/// The condition that a byte announces `unit_type`.
pub open spec fn announcing(unit_type: u8) -> spec_fn(u8) -> bool {
    |byte: u8| announces(byte, unit_type)
}

/// Whether some byte of `blob` announces `unit_type`.
pub open spec fn has_marker(blob: Seq<u8>, unit_type: u8) -> bool {
    has_match(blob, announcing(unit_type))
}

/// Whether `pos` is the first place in `blob` that announces `unit_type`.
pub open spec fn is_first_marker(blob: Seq<u8>, unit_type: u8, pos: int) -> bool {
    is_first_match(blob, announcing(unit_type), pos)
}

/// The first place in `blob` that announces `unit_type`, if there is one.
pub open spec fn marker_position(blob: Seq<u8>, unit_type: u8) -> Option<int> {
    first_match(blob, announcing(unit_type))
}

/// The bytes of the configuration packet that `blob` yields: a start code and
/// the first parameter set, then a start code and the second parameter set,
/// when both markers are found and the first lies before the second; nothing
/// otherwise.
pub open spec fn config_bytes(blob: Seq<u8>) -> Seq<u8> {
    let first = marker_position(blob, FIRST_SET_TYPE);
    let second = marker_position(blob, SECOND_SET_TYPE);
    if first is Some && second is Some && first->0 < second->0 {
        start_code() + blob.subrange(first->0, second->0) + start_code() + blob.subrange(
            second->0,
            blob.len() as int,
        )
    } else {
        Seq::empty()
    }
}

/// Where the marker of the first parameter set stands at `p1` and that of the
/// second at `p2`, each the first of its kind, and `p1` lies before `p2`, the
/// packet is a start code, the blob from `p1` up to `p2`, a start code, and the
/// blob from `p2` to its end.
pub proof fn lemma_config_layout(blob: Seq<u8>, p1: int, p2: int)
    requires
        is_first_marker(blob, FIRST_SET_TYPE, p1),
        is_first_marker(blob, SECOND_SET_TYPE, p2),
        p1 < p2,
    ensures
        config_bytes(blob) == start_code() + blob.subrange(p1, p2) + start_code() + blob.subrange(
            p2,
            blob.len() as int,
        ),
        config_bytes(blob).len() == 8 + blob.len() - p1,
{
    lemma_first_match_is(blob, announcing(FIRST_SET_TYPE), p1);
    lemma_first_match_is(blob, announcing(SECOND_SET_TYPE), p2);
}

/// Where either marker is missing from the blob, the packet is empty.
pub proof fn lemma_config_empty_when_marker_missing(blob: Seq<u8>)
    requires
        !has_marker(blob, FIRST_SET_TYPE) || !has_marker(blob, SECOND_SET_TYPE),
    ensures
        config_bytes(blob) == Seq::<u8>::empty(),
{
}

/// Where the marker of the second parameter set comes before that of the
/// first, the packet is empty.
pub proof fn lemma_config_empty_when_reversed(blob: Seq<u8>, p1: int, p2: int)
    requires
        is_first_marker(blob, FIRST_SET_TYPE, p1),
        is_first_marker(blob, SECOND_SET_TYPE, p2),
        p2 < p1,
    ensures
        config_bytes(blob) == Seq::<u8>::empty(),
{
    lemma_first_match_is(blob, announcing(FIRST_SET_TYPE), p1);
    lemma_first_match_is(blob, announcing(SECOND_SET_TYPE), p2);
}

/// The packet is empty exactly when the blob does not hold both markers with
/// the first before the second.
pub proof fn lemma_config_empty_iff(blob: Seq<u8>)
    ensures
        config_bytes(blob).len() == 0 <==> !(exists|p1: int, p2: int|
            is_first_marker(blob, FIRST_SET_TYPE, p1) && is_first_marker(
                blob,
                SECOND_SET_TYPE,
                p2,
            ) && p1 < p2),
{
    lemma_first_match_sound(blob, announcing(FIRST_SET_TYPE));
    lemma_first_match_sound(blob, announcing(SECOND_SET_TYPE));
    let first = marker_position(blob, FIRST_SET_TYPE);
    let second = marker_position(blob, SECOND_SET_TYPE);
    if first is Some && second is Some && first->0 < second->0 {
        lemma_config_layout(blob, first->0, second->0);
        assert(is_first_marker(blob, FIRST_SET_TYPE, first->0) && is_first_marker(
            blob,
            SECOND_SET_TYPE,
            second->0,
        ));
    } else {
        assert forall|p1: int, p2: int|
            is_first_marker(blob, FIRST_SET_TYPE, p1) && is_first_marker(
                blob,
                SECOND_SET_TYPE,
                p2,
            ) implies !(p1 < p2) by {
            lemma_first_match_is(blob, announcing(FIRST_SET_TYPE), p1);
            lemma_first_match_is(blob, announcing(SECOND_SET_TYPE), p2);
        }
    }
}

/// Finds the first byte of `blob` that announces `unit_type`.
pub fn find_marker(blob: &[u8], unit_type: u8) -> (r: Option<usize>)
    ensures
        r matches Some(pos) ==> is_first_marker(blob@, unit_type, pos as int),
        r is None ==> !has_marker(blob@, unit_type),
        match r {
            Some(pos) => marker_position(blob@, unit_type) == Some(pos as int),
            None => marker_position(blob@, unit_type) is None,
        },
{
    let mut i: usize = 0;
    while i < blob.len()
        invariant
            i <= blob.len(),
            forall|j: int| 0 <= j < i ==> !announces(#[trigger] blob@[j], unit_type),
        decreases blob.len() - i,
    {
        if blob[i] & UNIT_TYPE_MASK == unit_type {
            proof {
                lemma_first_match_is(blob@, announcing(unit_type), i as int);
            }
            return Some(i);
        }
        i += 1;
    }
    None
}

/// The configuration packet of a session.
pub struct ConfigPacket {
    bytes: Vec<u8>,
}

impl View for ConfigPacket {
    type V = Seq<u8>;

    closed spec fn view(&self) -> Seq<u8> {
        self.bytes@
    }
}

impl ConfigPacket {
    /// A packet without content: keyframes then carry no configuration.
    pub fn empty() -> (r: ConfigPacket)
        ensures
            r@ == Seq::<u8>::empty(),
    {
        ConfigPacket { bytes: Vec::new() }
    }

    /// Builds the packet from the extra data of a video sub-stream.
    pub fn extract(extra_data: &[u8]) -> (r: ConfigPacket)
        ensures
            r@ == config_bytes(extra_data@),
    {
        let mut bytes: Vec<u8> = Vec::new();
        let first = find_marker(extra_data, FIRST_SET_TYPE);
        let second = find_marker(extra_data, SECOND_SET_TYPE);
        if let Some(sps) = first {
            if let Some(pps) = second {
                if sps < pps {
                    push_start_code(&mut bytes);
                    bytes.extend_from_slice(slice_subrange(extra_data, sps, pps));
                    push_start_code(&mut bytes);
                    bytes.extend_from_slice(slice_subrange(extra_data, pps, extra_data.len()));
                    assert(bytes@ =~= config_bytes(extra_data@));
                }
            }
        }
        ConfigPacket { bytes }
    }

    /// The bytes of the packet.
    pub fn as_slice(&self) -> (r: &[u8])
        ensures
            r@ == self@,
    {
        self.bytes.as_slice()
    }

    /// Number of bytes in the packet.
    pub fn len(&self) -> (r: usize)
        ensures
            r == self@.len(),
    {
        self.bytes.len()
    }

    /// Whether the packet holds no configuration.
    pub fn is_empty(&self) -> (r: bool)
        ensures
            r == (self@.len() == 0),
    {
        self.bytes.len() == 0
    }
}

} // verus!

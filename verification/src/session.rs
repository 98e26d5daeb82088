//! The negotiated session: its sub-streams, and the choice of the one that is
//! relayed.

use crate::config::{config_bytes, ConfigPacket};
use crate::error::RelayError;
use crate::search::{first_match, has_match, is_first_match, lemma_first_match_is};
use vstd::prelude::*;

verus! {

/// One sub-stream of a session.
#[derive(Debug, PartialEq, Eq)]
pub enum SubStream {
    /// A video sub-stream, with its codec identifier and the extra data of
    /// its codec.
    Video { codec_id: String, extra_data: Vec<u8> },
    /// A sub-stream of any other kind.
    Other,
}

/// The view of a [`SubStream`].
pub enum SubStreamView {
    Video { codec_id: Seq<char>, extra_data: Seq<u8> },
    Other,
}

impl View for SubStream {
    type V = SubStreamView;

    open spec fn view(&self) -> SubStreamView {
        match self {
            SubStream::Video { codec_id, extra_data } => SubStreamView::Video {
                codec_id: codec_id@,
                extra_data: extra_data@,
            },
            SubStream::Other => SubStreamView::Other,
        }
    }
}

impl SubStream {
    /// Whether the sub-stream carries video.
    pub fn is_video(&self) -> (r: bool)
        ensures
            r == self@ is Video,
    {
        match self {
            SubStream::Video { .. } => true,
            SubStream::Other => false,
        }
    }
}

/// The sub-streams of a session, in the order in which the session lists
/// them.
#[derive(Debug, PartialEq, Eq)]
pub struct SessionDescriptor {
    streams: Vec<SubStream>,
}

impl View for SessionDescriptor {
    type V = Seq<SubStreamView>;

    closed spec fn view(&self) -> Seq<SubStreamView> {
        Seq::new(self.streams@.len(), |i: int| self.streams@[i]@)
    }
}

/// The condition that a sub-stream carries video.
pub open spec fn carries_video() -> spec_fn(SubStreamView) -> bool {
    |stream: SubStreamView| stream is Video
}

/// Place of the first video sub-stream among `streams`, if there is one.
pub open spec fn video_index(streams: Seq<SubStreamView>) -> Option<int> {
    first_match(streams, carries_video())
}

/// What the relay takes from a session: the place of its first video
/// sub-stream, the codec identifier of that sub-stream, and the configuration
/// packet that its extra data yields.
pub struct VideoSelectionView {
    pub index: nat,
    pub codec: Seq<char>,
    pub config: Seq<u8>,
}

/// The selection that a session with sub-streams `streams` leads to, if it
/// has a video sub-stream.
pub open spec fn selection_of(streams: Seq<SubStreamView>) -> Option<VideoSelectionView> {
    match video_index(streams) {
        Some(index) => Some(
            VideoSelectionView {
                index: index as nat,
                codec: streams[index]->codec_id,
                config: config_bytes(streams[index]->extra_data),
            },
        ),
        None => None,
    }
}

/// What the relay takes from a session.
pub struct VideoSelection {
    index: usize,
    codec: String,
    config: ConfigPacket,
}

impl View for VideoSelection {
    type V = VideoSelectionView;

    closed spec fn view(&self) -> VideoSelectionView {
        VideoSelectionView { index: self.index as nat, codec: self.codec@, config: self.config@ }
    }
}

impl VideoSelection {
    /// Place of the selected sub-stream in the session.
    pub fn index(&self) -> (r: usize)
        ensures
            r == self@.index,
    {
        self.index
    }

    /// Codec identifier of the selected sub-stream.
    pub fn codec(&self) -> (r: &str)
        ensures
            r@ == self@.codec,
    {
        self.codec.as_str()
    }

    /// Configuration packet of the selected sub-stream.
    pub fn config(&self) -> (r: &ConfigPacket)
        ensures
            r@ == self@.config,
    {
        &self.config
    }
}

impl SessionDescriptor {
    /// The descriptor of a session with the given sub-streams.
    pub fn new(streams: Vec<SubStream>) -> (r: SessionDescriptor)
        ensures
            r@.len() == streams@.len(),
            forall|i: int| 0 <= i < streams@.len() ==> r@[i] == streams@[i]@,
    {
        SessionDescriptor { streams }
    }

    /// Number of sub-streams.
    pub fn len(&self) -> (r: usize)
        ensures
            r == self@.len(),
    {
        self.streams.len()
    }

    /// The sub-stream at `index`, if the session has that many.
    pub fn get(&self, index: usize) -> (r: Option<&SubStream>)
        ensures
            r is Some <==> index < self@.len(),
            r matches Some(stream) ==> stream@ == self@[index as int],
    {
        if index < self.streams.len() {
            Some(&self.streams[index])
        } else {
            None
        }
    }

    /// Place of the first video sub-stream.
    pub fn find_video(&self) -> (r: Option<usize>)
        ensures
            match r {
                Some(index) => video_index(self@) == Some(index as int) && is_first_match(
                    self@,
                    carries_video(),
                    index as int,
                ),
                None => video_index(self@) is None && !has_match(self@, carries_video()),
            },
    {
        let mut i: usize = 0;
        while i < self.streams.len()
            invariant
                i <= self.streams.len(),
                self@.len() == self.streams@.len(),
                forall|j: int| 0 <= j < i ==> !(#[trigger] self@[j] is Video),
            decreases self.streams.len() - i,
        {
            if self.streams[i].is_video() {
                proof {
                    lemma_first_match_is(self@, carries_video(), i as int);
                }
                return Some(i);
            }
            i += 1;
        }
        None
    }

    /// Selects the first video sub-stream and builds its configuration
    /// packet. A session without video cannot be relayed.
    pub fn negotiate(&self) -> (r: Result<VideoSelection, RelayError>)
        ensures
            match r {
                Ok(selection) => selection_of(self@) == Some(selection@),
                Err(error) => selection_of(self@) is None && error == RelayError::NoVideoStream,
            },
    {
        match self.find_video() {
            Some(index) => {
                match &self.streams[index] {
                    SubStream::Video { codec_id, extra_data } => {
                        let config = ConfigPacket::extract(extra_data.as_slice());
                        Ok(VideoSelection { index, codec: codec_id.clone(), config })
                    },
                    SubStream::Other => {
                        proof {
                            assert(self@[index as int] is Video);
                        }
                        Err(RelayError::NoVideoStream)
                    },
                }
            },
            None => Err(RelayError::NoVideoStream),
        }
    }
}

} // verus!

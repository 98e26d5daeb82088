//! The frames that pass through the relay, and their mathematical views.

use vstd::prelude::*;

verus! {

/// One timestamped unit of compressed video, as the session layer delivers it.
#[derive(Debug, PartialEq, Eq)]
pub struct CodedFrame {
    /// Presentation timestamp.
    pub timestamp: i64,
    /// Payload bytes, with a four-byte length in front of the coded unit.
    pub data: Vec<u8>,
    /// Whether the frame can be decoded without any frame before it.
    pub is_random_access_point: bool,
    /// Whether the frame comes with parameters that differ from the last ones.
    pub has_new_parameters: bool,
}

/// The view of a [`CodedFrame`].
pub struct CodedFrameView {
    pub timestamp: int,
    pub data: Seq<u8>,
    pub is_random_access_point: bool,
    pub has_new_parameters: bool,
}

impl View for CodedFrame {
    type V = CodedFrameView;

    open spec fn view(&self) -> CodedFrameView {
        CodedFrameView {
            timestamp: self.timestamp as int,
            data: self.data@,
            is_random_access_point: self.is_random_access_point,
            has_new_parameters: self.has_new_parameters,
        }
    }
}

impl CodedFrame {
    /// A frame with the given attributes.
    pub fn new(
        timestamp: i64,
        data: Vec<u8>,
        is_random_access_point: bool,
        has_new_parameters: bool,
    ) -> (r: CodedFrame)
        ensures
            r@ == (CodedFrameView {
                timestamp: timestamp as int,
                data: data@,
                is_random_access_point,
                has_new_parameters,
            }),
    {
        CodedFrame { timestamp, data, is_random_access_point, has_new_parameters }
    }
}

impl Clone for CodedFrame {
    fn clone(&self) -> (r: CodedFrame)
        ensures
            r@ == self@,
    {
        CodedFrame {
            timestamp: self.timestamp,
            data: self.data.clone(),
            is_random_access_point: self.is_random_access_point,
            has_new_parameters: self.has_new_parameters,
        }
    }
}

/// One item of a playing session: a video frame, or anything else, which the
/// relay passes over.
#[derive(Debug, PartialEq, Eq)]
pub enum StreamItem {
    Video(CodedFrame),
    Other,
}

/// The view of a [`StreamItem`].
pub enum StreamItemView {
    Video(CodedFrameView),
    Other,
}

impl View for StreamItem {
    type V = StreamItemView;

    open spec fn view(&self) -> StreamItemView {
        match self {
            StreamItem::Video(frame) => StreamItemView::Video(frame@),
            StreamItem::Other => StreamItemView::Other,
        }
    }
}

/// The media kind that every relayed frame announces.
pub open spec fn media_video() -> Seq<char> {
    "video"@
}

/// The type tag of a frame that is a random access point.
pub open spec fn type_keyframe() -> Seq<char> {
    "keyframe"@
}

/// The value of one field of a metadata record.
#[derive(Debug, PartialEq, Eq)]
pub enum FieldValue {
    /// A whole number.
    Integer(i64),
    /// A text.
    Text(String),
}

/// The view of a [`FieldValue`].
pub enum FieldValueView {
    Integer(int),
    Text(Seq<char>),
}

impl View for FieldValue {
    type V = FieldValueView;

    open spec fn view(&self) -> FieldValueView {
        match self {
            FieldValue::Integer(number) => FieldValueView::Integer(*number as int),
            FieldValue::Text(text) => FieldValueView::Text(text@),
        }
    }
}

/// One named field of a metadata record, as it goes over the wire.
#[derive(Debug, PartialEq, Eq)]
pub struct Field {
    pub name: &'static str,
    pub value: FieldValue,
}

/// The view of a [`Field`].
pub struct FieldView {
    pub name: Seq<char>,
    pub value: FieldValueView,
}

impl View for Field {
    type V = FieldView;

    open spec fn view(&self) -> FieldView {
        FieldView { name: self.name@, value: self.value@ }
    }
}

/// The record that describes a relayed frame to a subscriber.
#[derive(Debug, PartialEq, Eq)]
pub struct Metadata {
    ts: i64,
    codec: String,
    keyframe: bool,
}

/// The view of a [`Metadata`] record.
pub struct MetadataView {
    /// Presentation timestamp.
    pub ts: int,
    /// Codec identifier.
    pub codec: Seq<char>,
    /// Whether the type tag is present.
    pub keyframe: bool,
}

impl MetadataView {
    /// The fields of the record in the order in which they are written: the
    /// timestamp as `ts`, the media kind as `media`, the codec identifier as
    /// `codec`, and on a random access point the tag `keyframe` as `type`.
    pub open spec fn fields(self) -> Seq<FieldView> {
        let always = seq![
            FieldView { name: "ts"@, value: FieldValueView::Integer(self.ts) },
            FieldView { name: "media"@, value: FieldValueView::Text(media_video()) },
            FieldView { name: "codec"@, value: FieldValueView::Text(self.codec) },
        ];
        if self.keyframe {
            always.push(FieldView { name: "type"@, value: FieldValueView::Text(type_keyframe()) })
        } else {
            always
        }
    }
}

impl View for Metadata {
    type V = MetadataView;

    closed spec fn view(&self) -> MetadataView {
        MetadataView { ts: self.ts as int, codec: self.codec@, keyframe: self.keyframe }
    }
}

impl Metadata {
    /// The record of a frame with timestamp `ts` in codec `codec`.
    pub fn new(ts: i64, codec: &str, keyframe: bool) -> (r: Metadata)
        ensures
            r@ == (MetadataView { ts: ts as int, codec: codec@, keyframe }),
    {
        Metadata { ts, codec: codec.to_owned(), keyframe }
    }

    /// Presentation timestamp of the frame.
    pub fn ts(&self) -> (r: i64)
        ensures
            r as int == self@.ts,
    {
        self.ts
    }

    /// Media kind of the frame: always video.
    pub fn media(&self) -> (r: &'static str)
        ensures
            r@ == media_video(),
    {
        "video"
    }

    /// Codec identifier of the frame.
    pub fn codec(&self) -> (r: &str)
        ensures
            r@ == self@.codec,
    {
        self.codec.as_str()
    }

    /// Whether the frame is a random access point.
    pub fn is_keyframe(&self) -> (r: bool)
        ensures
            r == self@.keyframe,
    {
        self.keyframe
    }

    /// The fields of the record, in the order in which they are written.
    pub fn fields(&self) -> (r: Vec<Field>)
        ensures
            r@.len() == self@.fields().len(),
            forall|i: int| 0 <= i < r@.len() ==> (#[trigger] r@[i])@ == self@.fields()[i],
    {
        let mut fields: Vec<Field> = Vec::new();
        fields.push(Field { name: "ts", value: FieldValue::Integer(self.ts) });
        fields.push(Field { name: "media", value: FieldValue::Text("video".to_owned()) });
        fields.push(Field { name: "codec", value: FieldValue::Text(self.codec.clone()) });
        if self.keyframe {
            fields.push(Field { name: "type", value: FieldValue::Text("keyframe".to_owned()) });
        }
        fields
    }

    /// The type tag of the frame: present on a random access point only.
    pub fn frame_type(&self) -> (r: Option<&'static str>)
        ensures
            r is Some == self@.keyframe,
            r matches Some(tag) ==> tag@ == type_keyframe(),
    {
        if self.keyframe {
            Some("keyframe")
        } else {
            None
        }
    }
}

impl Clone for Metadata {
    fn clone(&self) -> (r: Metadata)
        ensures
            r@ == self@,
    {
        Metadata { ts: self.ts, codec: self.codec.clone(), keyframe: self.keyframe }
    }
}

/// The unit that the relay hands to its subscribers: a metadata record and a
/// payload that a decoder can take as it is.
#[derive(Debug, PartialEq, Eq)]
pub struct RelayFrame {
    metadata: Metadata,
    payload: Vec<u8>,
}

/// The view of a [`RelayFrame`].
pub struct RelayFrameView {
    pub metadata: MetadataView,
    pub payload: Seq<u8>,
}

impl View for RelayFrame {
    type V = RelayFrameView;

    closed spec fn view(&self) -> RelayFrameView {
        RelayFrameView { metadata: self.metadata@, payload: self.payload@ }
    }
}

impl RelayFrame {
    /// The frame made of `metadata` and `payload`.
    pub fn new(metadata: Metadata, payload: Vec<u8>) -> (r: RelayFrame)
        ensures
            r@ == (RelayFrameView { metadata: metadata@, payload: payload@ }),
    {
        RelayFrame { metadata, payload }
    }

    /// The metadata record.
    pub fn metadata(&self) -> (r: &Metadata)
        ensures
            r@ == self@.metadata,
    {
        &self.metadata
    }

    /// The payload bytes.
    pub fn payload(&self) -> (r: &[u8])
        ensures
            r@ == self@.payload,
    {
        self.payload.as_slice()
    }

    /// Takes the frame apart.
    pub fn into_parts(self) -> (r: (Metadata, Vec<u8>))
        ensures
            r.0@ == self@.metadata,
            r.1@ == self@.payload,
    {
        (self.metadata, self.payload)
    }
}

impl Clone for RelayFrame {
    fn clone(&self) -> (r: RelayFrame)
        ensures
            r@ == self@,
    {
        RelayFrame { metadata: self.metadata.clone(), payload: self.payload.clone() }
    }
}

} // verus!

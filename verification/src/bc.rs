//! The messages that start and stop a stream.

use vstd::prelude::*;

verus! {

/// The response code of a request that the camera accepted.
pub const RESPONSE_OK: u16 = 200;

/// The message class of stream requests.
pub const STREAM_CLASS: u16 = 0x6414;

/// The header of a message.
#[derive(Debug, Clone, Copy, PartialEq, Eq)]
pub struct BcMeta {
    /// What kind of message this is.
    pub msg_id: u32,
    /// The camera channel that it concerns.
    pub channel_id: u8,
    /// The number that ties a reply to its request.
    pub msg_num: u16,
    /// The code of the stream.
    pub stream_type: u8,
    /// How a request was received; 0 in a request.
    pub response_code: u16,
    /// The message class.
    pub class: u16,
}

/// A message from the camera: a header, and a body that is carried along unread.
#[derive(Debug, Clone, PartialEq, Eq)]
pub struct Message<B> {
    /// The header.
    pub meta: BcMeta,
    /// The body.
    pub body: B,
}

/// The body of a stream request.
#[derive(Debug, Clone, PartialEq, Eq)]
pub struct Preview {
    /// The version of the body's format.
    pub version: String,
    /// The camera channel.
    pub channel_id: u8,
    /// The handle of the stream.
    pub handle: u32,
    /// The name of the stream, where the request gives one.
    pub stream_type: Option<String>,
}

/// A stream request: a header, and a body that holds nothing but a [`Preview`].
#[derive(Debug, Clone, PartialEq, Eq)]
pub struct Bc {
    /// The header.
    pub meta: BcMeta,
    /// The body.
    pub preview: Preview,
}

/// What a [`Preview`] says.
pub struct PreviewView {
    pub version: Seq<char>,
    pub channel_id: u8,
    pub handle: u32,
    pub stream_type: Option<Seq<char>>,
}

/// What a [`Bc`] says.
pub struct BcView {
    pub meta: BcMeta,
    pub preview: PreviewView,
}

impl View for Preview {
    type V = PreviewView;

    open spec fn view(&self) -> PreviewView {
        PreviewView {
            version: self.version@,
            channel_id: self.channel_id,
            handle: self.handle,
            stream_type: match self.stream_type {
                Some(name) => Some(name@),
                None => None,
            },
        }
    }
}

impl View for Bc {
    type V = BcView;

    open spec fn view(&self) -> BcView {
        BcView { meta: self.meta, preview: self.preview@ }
    }
}

/// The identifiers that the message layer assigns.
#[derive(Debug, Clone, PartialEq, Eq)]
pub struct ProtocolIds {
    /// The message id of a request that starts a stream.
    pub video: u32,
    /// The message id of a request that stops a stream.
    pub video_stop: u32,
    /// The version that message bodies carry.
    pub xml_version: String,
}

/// What a request says leaves nothing of it out.
pub proof fn law_request_says_all(bc: Bc)
    ensures
        bc@.meta == bc.meta,
        bc@.preview.version == bc.preview.version@,
        bc@.preview.channel_id == bc.preview.channel_id,
        bc@.preview.handle == bc.preview.handle,
        bc@.preview.stream_type is Some <==> bc.preview.stream_type is Some,
        bc.preview.stream_type is Some ==> bc@.preview.stream_type->0
            == bc.preview.stream_type->0@,
{
}

} // verus!

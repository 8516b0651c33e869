//! The message type for UTF-8 text.

use crate::typed_publisher::PublisherMessage;
use crate::typed_subscriber::SubscriberMessage;
use crate::types::{DataTypeInfo, DataTypeInfoView};
use std::sync::Arc;
use vstd::prelude::*;
use vstd::string::StringSliceAdditionalSpecFns;
use vstd::utf8::{
    decode_utf8, decode_utf8_encode_utf8, encode_utf8, encode_utf8_decode_utf8,
    encode_utf8_valid_utf8, valid_utf8,
};

verus! {

/// The error of `core::str::from_utf8`. Nothing is read from it: a buffer that
/// is not UTF-8 decodes to no message, whatever the reason.
#[verifier::external_type_specification]
#[verifier::external_body]
pub struct ExUtf8Error(core::str::Utf8Error);

/// `core::str::from_utf8` accepts a buffer exactly when it is well-formed
/// UTF-8, and the text it then returns is the buffer itself, seen as a string:
/// the encoding of that text is the buffer, byte for byte.
pub assume_specification[ core::str::from_utf8 ](v: &[u8]) -> (res: Result<
    &str,
    core::str::Utf8Error,
>)
    ensures
        res is Ok <==> valid_utf8(v@),
        res matches Ok(text) ==> text.spec_bytes() == v@,
;

/// `Arc::<str>::from` on a string slice: a shared string with the same
/// characters.
#[verifier::external_body]
fn share_text(text: &str) -> (shared: Arc<str>)
    ensures
        (*shared)@ == text@,
{
    Arc::from(text)
}

/// `Arc::<[u8]>::from` on a byte slice: a shared buffer with the same bytes.
#[verifier::external_body]
fn share_bytes(bytes: &[u8]) -> (shared: Arc<[u8]>)
    ensures
        (*shared)@ == bytes@,
{
    Arc::from(bytes)
}

/// A UTF-8 string message.
///
/// The text is shared and immutable, so one received message can be handed to
/// many consumers without being copied.
pub struct StringMessage {
    pub data: Arc<str>,
}

impl View for StringMessage {
    type V = Seq<char>;

    /// A string message is its text.
    open spec fn view(&self) -> Seq<char> {
        (*self.data)@
    }
}

/// The metadata of string messages: type name "string", encoding "utf-8", no
/// descriptor.
pub open spec fn string_datatype() -> DataTypeInfoView {
    DataTypeInfoView { name: "string"@, encoding: "utf-8"@, descriptor: Seq::empty() }
}

/// The text that a buffer decodes to: its UTF-8 decoding where it is
/// well-formed UTF-8, and nothing otherwise.
pub open spec fn decoded_text(bytes: Seq<u8>) -> Option<Seq<char>> {
    if valid_utf8(bytes) {
        Some(decode_utf8(bytes))
    } else {
        None
    }
}

impl SubscriberMessage<'_> for StringMessage {
    open spec fn spec_datatype() -> DataTypeInfoView {
        string_datatype()
    }

    open spec fn spec_from_bytes(bytes: Seq<u8>, info: DataTypeInfoView) -> Option<Seq<char>> {
        decoded_text(bytes)
    }

    /// Returns the metadata of string messages, [`string_datatype`]: always
    /// the same three fields.
    fn datatype() -> (info: DataTypeInfo) {
        DataTypeInfo {
            encoding: "utf-8".to_string(),
            name: "string".to_string(),
            descriptor: Vec::new(),
        }
    }

    /// Decodes a buffer as UTF-8 text.
    ///
    /// Every well-formed buffer yields a message, the empty buffer the empty
    /// one; a buffer that is not well-formed UTF-8 yields `None`. The metadata
    /// is accepted and not looked at.
    fn from_bytes(bytes: &[u8], _data_type_info: &DataTypeInfo) -> (message: Option<Self>)
        ensures
            valid_utf8(bytes@) ==> message is Some && message.unwrap()@ == decode_utf8(bytes@),
            !valid_utf8(bytes@) ==> message is None,
            bytes@.len() == 0 ==> message is Some && message.unwrap()@.len() == 0,
    {
        match core::str::from_utf8(bytes) {
            Ok(text) => {
                proof {
                    encode_utf8_decode_utf8(text@);
                }
                Some(StringMessage { data: share_text(text) })
            },
            Err(_) => None,
        }
    }
}

impl PublisherMessage for StringMessage {
    open spec fn spec_datatype() -> DataTypeInfoView {
        string_datatype()
    }

    open spec fn spec_to_bytes(value: Seq<char>) -> Seq<u8> {
        encode_utf8(value)
    }

    /// Returns the same metadata as [`SubscriberMessage::datatype`].
    fn datatype() -> (info: DataTypeInfo) {
        <StringMessage as SubscriberMessage>::datatype()
    }

    /// Serializes the text: the bytes are its UTF-8 encoding.
    fn to_bytes(&self) -> (bytes: Arc<[u8]>)
        ensures
            (*bytes)@ == encode_utf8(self@),
    {
        share_bytes(self.data.as_bytes())
    }
}

/// Round trip from the wire: a buffer of well-formed UTF-8 decodes to a
/// message, whatever metadata comes with it, and that message serializes to
/// the very same bytes.
pub proof fn lemma_decode_then_encode(bytes: Seq<u8>, info: DataTypeInfoView)
    requires
        valid_utf8(bytes),
    ensures
        <StringMessage as SubscriberMessage>::spec_from_bytes(bytes, info) is Some,
        <StringMessage as PublisherMessage>::spec_to_bytes(
            <StringMessage as SubscriberMessage>::spec_from_bytes(bytes, info).unwrap(),
        ) == bytes,
{
    decode_utf8_encode_utf8(bytes);
}

/// Round trip to the wire: what a message serializes to is well-formed UTF-8,
/// and it decodes to the same text, whatever metadata comes with it.
pub proof fn lemma_encode_then_decode(text: Seq<char>, info: DataTypeInfoView)
    ensures
        <StringMessage as SubscriberMessage>::spec_from_bytes(
            <StringMessage as PublisherMessage>::spec_to_bytes(text),
            info,
        ) == Some(text),
{
    encode_utf8_valid_utf8(text);
    encode_utf8_decode_utf8(text);
}

} // verus!

//! The capability of being received: a message type that can name its wire
//! type and rebuild a value from bytes, or decline to.

use crate::types::{DataTypeInfo, DataTypeInfoView};
use vstd::prelude::*;

verus! {

/// A message type that can be rebuilt from a received buffer.
///
/// An implementation fixes, as a mathematical function, which buffers decode
/// and to what value. `from_bytes` has to compute exactly that function: it
/// returns `None` on the buffers that do not decode and on no others, and a
/// buffer that does not decode is an ordinary outcome, never a fault.
pub trait SubscriberMessage<'a>: Sized + View {
    /// The metadata of this message type. It depends on the type only.
    spec fn spec_datatype() -> DataTypeInfoView;

    /// The view of the value that a buffer decodes to under the metadata that
    /// came with it, or `None` where the buffer does not decode.
    spec fn spec_from_bytes(bytes: Seq<u8>, info: DataTypeInfoView) -> Option<Self::V>;

    /// Returns the metadata (type name, encoding, descriptor) of this message
    /// type. No value of the type is needed, and the call cannot fail.
    fn datatype() -> (info: DataTypeInfo)
        ensures
            info@ == Self::spec_datatype(),
    ;

    /// Rebuilds a message from a received buffer and the metadata that the
    /// sender attached to it. An implementation may ignore the metadata.
    fn from_bytes(bytes: &'a [u8], data_type_info: &DataTypeInfo) -> (message: Option<Self>)
        ensures
            match message {
                Some(m) => Self::spec_from_bytes(bytes@, data_type_info@) == Some(m@),
                None => Self::spec_from_bytes(bytes@, data_type_info@) is None,
            },
    ;
}

} // verus!

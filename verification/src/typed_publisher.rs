//! The capability of being published: a message type that can name its wire
//! type and turn a value into bytes.

use crate::types::{DataTypeInfo, DataTypeInfoView};
use std::sync::Arc;
use vstd::prelude::*;

verus! {

/// A message type that can be sent through a typed publisher.
///
/// An implementation fixes two mathematical functions, the metadata of the
/// type and the wire form of a value, and the two executable methods have to
/// compute exactly those. Both are thereby functions of their arguments alone:
/// no hidden state can influence the metadata or the bytes.
pub trait PublisherMessage: View {
    /// The metadata of this message type. It depends on the type only.
    spec fn spec_datatype() -> DataTypeInfoView;

    /// The wire form of a value, given by the value's view.
    spec fn spec_to_bytes(value: Self::V) -> Seq<u8>;

    /// Returns the metadata (type name, encoding, descriptor) of this message
    /// type. No value of the type is needed, and the call cannot fail.
    fn datatype() -> (info: DataTypeInfo)
        ensures
            info@ == Self::spec_datatype(),
    ;

    /// Serializes the message into a shared, immutable byte buffer that the
    /// caller owns. The message is left as it was.
    fn to_bytes(&self) -> (bytes: Arc<[u8]>)
        ensures
            (*bytes)@ == Self::spec_to_bytes(self@),
    ;
}

} // verus!

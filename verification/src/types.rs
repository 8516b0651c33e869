//! Wire-type metadata shared by the publishing and the subscribing side.

use vstd::prelude::*;
use vstd::std_specs::cmp::PartialEqSpecImpl;

verus! {

/// Wire-type metadata of a message type: what the logical type is called, how
/// its payload is encoded, and an optional schema descriptor.
///
/// Two endpoints can exchange a message type safely only if they produce the
/// same `name` and `encoding` for it. The fields are public so that a
/// transport can make that comparison before it decodes anything.
#[derive(Debug)]
pub struct DataTypeInfo {
    /// Name of the logical type, compared across processes.
    pub name: String,
    /// Name of the serialization scheme, such as "utf-8" or "protobuf".
    pub encoding: String,
    /// Schema definition, possibly empty. It is carried along, never read.
    pub descriptor: Vec<u8>,
}

/// The mathematical content of a [`DataTypeInfo`].
pub struct DataTypeInfoView {
    pub name: Seq<char>,
    pub encoding: Seq<char>,
    pub descriptor: Seq<u8>,
}

impl View for DataTypeInfo {
    type V = DataTypeInfoView;

    open spec fn view(&self) -> DataTypeInfoView {
        DataTypeInfoView {
            name: self.name@,
            encoding: self.encoding@,
            descriptor: self.descriptor@,
        }
    }
}

impl Clone for DataTypeInfo {
    /// The copy has the same three fields.
    fn clone(&self) -> (copy: Self)
        ensures
            copy@ == self@,
    {
        DataTypeInfo {
            name: self.name.clone(),
            encoding: self.encoding.clone(),
            descriptor: self.descriptor.clone(),
        }
    }
}

impl PartialEq for DataTypeInfo {
    /// Structural equality: `==` holds exactly when all three fields agree.
    fn eq(&self, other: &Self) -> (equal: bool) {
        let same_descriptor = self.descriptor == other.descriptor;
        proof {
            if same_descriptor {
                assert(self.descriptor@ =~= other.descriptor@);
            }
        }
        self.name == other.name && self.encoding == other.encoding && same_descriptor
    }
}

impl PartialEqSpecImpl for DataTypeInfo {
    open spec fn obeys_eq_spec() -> bool {
        true
    }

    open spec fn eq_spec(&self, other: &Self) -> bool {
        self@ == other@
    }
}

impl Eq for DataTypeInfo {

}

} // verus!

use vstd::prelude::*;

verus! {

/// A columnar type descriptor: the tag telling downstream consumers how to
/// interpret the raw bytes of an output buffer as column-oriented data.
#[derive(Clone, Copy, Debug, PartialEq, Eq, Structural)]
pub enum DataType {
    Null,
    Bool,
    Int8,
    Int16,
    Int32,
    Int64,
    UInt8,
    UInt16,
    UInt32,
    UInt64,
    Float32,
    Float64,
    Utf8,
    Binary,
}

/// One metadata value: the closed set of scalar and string shapes a metadata
/// mapping may carry.
#[derive(Clone, Debug, PartialEq, Eq)]
pub enum MetadataValue {
    Bool(bool),
    Int(i64),
    Text(String),
}

/// One outgoing message: the output identifier, the raw payload bytes, the
/// columnar type descriptor for those bytes, and the metadata key/value
/// pairs attached to the send.
#[derive(Clone, Debug, PartialEq, Eq)]
pub struct OutputMessage {
    pub output_id: String,
    pub data: Vec<u8>,
    pub data_type: DataType,
    pub metadata: Vec<(String, MetadataValue)>,
}

/// The metadata entries a send call attaches: an absent metadata argument is
/// equivalent to an empty mapping.
pub open spec fn metadata_entries(metadata: Option<Vec<(String, MetadataValue)>>) -> Seq<
    (String, MetadataValue),
> {
    match metadata {
        Some(entries) => entries@,
        None => Seq::empty(),
    }
}

} // verus!

//! The outcomes that the buffer reports instead of transferring bytes.

use vstd::prelude::*;

verus! {

/// The error of the JSON decoder, carried through unread.
#[verifier::external_type_specification]
#[verifier::external_body]
pub struct ExJsonDecodeError(serde_json_core::de::Error);

/// The error of the JSON encoder, carried through unread.
#[verifier::external_type_specification]
#[verifier::external_body]
pub struct ExJsonEncodeError(serde_json_core::ser::Error);

/// Why an operation on a buffer or on one of its handles did not take place.
#[derive(Debug, PartialEq)]
pub enum BufferError {
    /// No free space is left to write to, even after compaction.
    NoCapacity,
    /// The slice handed to a bulk read or write was empty.
    ProvidedSliceEmpty,
    /// Fewer unread bytes are left than the operation needs.
    NoData,
    /// The JSON decoder rejected the unread bytes.
    JsonDeserialize(serde_json_core::de::Error),
}

} // verus!

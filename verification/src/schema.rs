//! The ledger's side of content validation. The validator itself is an outside service:
//! the ledger says what to hand it, and what its answer means.

use vstd::prelude::*;
use crate::error::Error;
use crate::ledger::Ledger;

verus! {

/// What is handed to the content validator: the raw blob, and the encoded-length bound
/// that is declared to it.
pub struct SchemaRequest<'a> {
    /// The blob to validate, uninterpreted.
    pub blob: &'a [u8],
    /// The declared bound on the encoded length.
    pub max_encoded_length: u32,
}

/// What the validator's answer means: acceptance lets the creation go on, rejection is
/// `SchemaInvalid`.
pub fn schema_verdict(accepted: bool) -> (verdict: Result<(), Error>)
    ensures
        verdict == (if accepted {
            Ok::<(), Error>(())
        } else {
            Err::<(), Error>(Error::SchemaInvalid)
        }),
{
    if accepted {
        Ok(())
    } else {
        Err(Error::SchemaInvalid)
    }
}

impl Ledger {
    /// The request to put to the content validator for `blob`: the blob as it is, under
    /// the ledger's configured bound.
    pub fn schema_request<'a>(&self, blob: &'a Vec<u8>) -> (request: SchemaRequest<'a>)
        ensures
            request.blob@ == blob@,
            request.max_encoded_length == self@.config.max_encoded_schema_length,
    {
        SchemaRequest { blob: blob.as_slice(), max_encoded_length: self.config().max_encoded_schema_length }
    }
}

} // verus!

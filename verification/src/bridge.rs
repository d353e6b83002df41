//! The output bridge: the one operation guest code can call to emit an
//! output event.
//!
//! The guest hands over an output identifier, a raw byte payload, and
//! optional metadata. The metadata is parsed outside the library; this
//! module decides what becomes of the call: a successful parse yields an
//! `Output` record forwarded to the host, with the payload bytes preserved
//! exactly, and a parse failure is a local error surfaced back into guest
//! code — it does not end the session by itself.

use vstd::prelude::*;
use crate::events::{EventMetadata, OutputRecord};

verus! {

/// A local failure of one output call, surfaced to the guest as an
/// exception at the call site rather than ending the session.
#[derive(Clone, Debug)]
pub enum BridgeError {
    /// The metadata handed over by the guest could not be parsed.
    MetadataParse { cause: String },
    /// The outgoing channel is closed, so the output could not be
    /// forwarded.
    ChannelClosed,
}

/// Build the output record for one bridge call, given the result of parsing
/// the guest's metadata. On success the record carries the identifier, the
/// parsed metadata, and the payload bytes unchanged (bytes in are bytes
/// out); a parse failure becomes the local `MetadataParse` error.
pub fn bridge_output(output_id: String, data: Vec<u8>, parsed_metadata: Result<
    EventMetadata,
    String,
>) -> (r: Result<OutputRecord, BridgeError>)
    ensures
        parsed_metadata matches Ok(m) ==> r == Ok::<OutputRecord, BridgeError>(OutputRecord {
            output_id,
            metadata: m,
            data,
        }),
        parsed_metadata matches Err(cause) ==> r == Err::<OutputRecord, BridgeError>(
            BridgeError::MetadataParse { cause },
        ),
        r matches Ok(rec) ==> rec.data@ == data@ && rec.output_id@ == output_id@,
{
    match parsed_metadata {
        Ok(m) => Ok(OutputRecord { output_id, metadata: m, data }),
        Err(cause) => Err(BridgeError::MetadataParse { cause }),
    }
}

} // verus!

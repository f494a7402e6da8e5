//! Data-channel values: creation options and inbound message
//! normalization.
//!
//! Whatever engine delivered an inbound message, the handler sees the
//! same shape: the raw bytes and a text flag. The native engine already
//! hands bytes with a flag; the event-object engine hands either a text
//! value or a binary buffer, and a text value is re-encoded to its UTF-8
//! bytes here so both engines yield an identical pair. The bytes
//! themselves are never altered: substituting placeholders for malformed
//! text belongs to the consumer, not to this layer.

use vstd::prelude::*;
use vstd::string::StrSliceExecFns;
use vstd::string::StringSliceAdditionalSpecFns;

verus! {

/// Options for creating a data channel; an unset option leaves the
/// engine's own default in force.
#[derive(Debug, Clone)]
pub struct DataChannelInit {
    pub ordered: Option<bool>,
    pub max_retransmits: Option<u16>,
}

impl Default for DataChannelInit {
    /// By default every option is left to the engine.
    fn default() -> (r: Self)
        ensures
            r.ordered is None,
            r.max_retransmits is None,
    {
        DataChannelInit { ordered: None, max_retransmits: None }
    }
}

/// An inbound message as the event-object engine delivers it: either a
/// text value or a binary buffer.
#[derive(Debug)]
pub enum MessagePayload<'a> {
    Text(&'a str),
    Binary(Vec<u8>),
}

/// Normalizes an inbound message to the uniform `(bytes, is_text)` shape.
///
/// A binary buffer passes through unmodified with the flag off; a text
/// value becomes exactly its UTF-8 bytes with the flag on.
pub fn normalize_message(payload: MessagePayload<'_>) -> (r: (Vec<u8>, bool))
    ensures
        payload matches MessagePayload::Binary(b) ==> r.0@ == b@ && r.1 == false,
        payload matches MessagePayload::Text(s) ==> r.0@ == s.spec_bytes() && r.1 == true,
{
    match payload {
        MessagePayload::Text(s) => {
            let bytes = s.as_bytes_vec();
            (bytes, true)
        },
        MessagePayload::Binary(b) => (b, false),
    }
}

} // verus!

use vstd::prelude::*;
use vstd::bytes::{spec_u64_from_le_bytes, u64_from_le_bytes};
use vstd::slice::slice_subrange;
use crate::errors::WagerError;

verus! {

/// One decoded operation request, routed to the lifecycle controller.
#[derive(Clone, Copy, Debug, PartialEq, Eq, Structural)]
pub enum Operation {
    /// Create a wager; the flag is party A's declared direction.
    Open { party_a_increase: bool, supplied_price: Option<u64> },
    /// Overwrite `last_price` from the oracle, touching nothing else.
    RefreshPrice,
    /// Admission of the second party.
    Join { supplied_price: Option<u64> },
    /// Determine and record a winner, paying out on a threshold crossing.
    Resolve { supplied_price: Option<u64> },
    /// Terminate an unjoined wager, returning the stake to the initiator.
    Unwind,
    /// Disburse the recorded payout to the recorded winner.
    Close,
}

/// The little-endian price field starting at `start`, or `None` when the
/// payload is too short to hold it. A zero value is kept here; the price
/// resolver is what treats zero as "absent".
pub open spec fn spec_price_field(data: Seq<u8>, start: int) -> Option<u64> {
    if data.len() >= start + 8 {
        Some(spec_u64_from_le_bytes(data.subrange(start, start + 8)))
    } else {
        None
    }
}

/// What decoding an operation payload yields. Byte 0 selects the operation;
/// `Open` also needs a direction flag in byte 1, and the optional price field
/// sits at byte 2 for `Open` and at byte 1 for `Join` and `Resolve`.
pub open spec fn spec_decode_operation(data: Seq<u8>) -> Result<Operation, WagerError> {
    if data.len() == 0 {
        Err(WagerError::MalformedInput)
    } else if data[0] == 0 {
        if data.len() < 2 {
            Err(WagerError::MalformedInput)
        } else {
            Ok(
                Operation::Open {
                    party_a_increase: data[1] != 0,
                    supplied_price: spec_price_field(data, 2),
                },
            )
        }
    } else if data[0] == 1 {
        Ok(Operation::RefreshPrice)
    } else if data[0] == 2 {
        Ok(Operation::Join { supplied_price: spec_price_field(data, 1) })
    } else if data[0] == 3 {
        Ok(Operation::Resolve { supplied_price: spec_price_field(data, 1) })
    } else if data[0] == 4 {
        Ok(Operation::Unwind)
    } else if data[0] == 5 {
        Ok(Operation::Close)
    } else {
        Err(WagerError::UnknownOperation)
    }
}

/// The dispatcher: reads the leading opcode byte and decodes one operation
/// request from the raw payload.
pub struct Processor;

impl Processor {
    /// Decode an operation payload. An empty payload, or an `Open` payload
    /// without its direction byte, is malformed; an opcode past the last
    /// operation selects nothing.
    pub fn decode_operation(data: &[u8]) -> (r: Result<Operation, WagerError>)
        ensures
            r == spec_decode_operation(data@),
    {
        if data.len() == 0 {
            return Err(WagerError::MalformedInput);
        }
        let opcode = *vstd::slice::slice_index_get(data, 0);
        if opcode == 0 {
            if data.len() < 2 {
                Err(WagerError::MalformedInput)
            } else {
                let flag = *vstd::slice::slice_index_get(data, 1);
                Ok(
                    Operation::Open {
                        party_a_increase: flag != 0,
                        supplied_price: price_field(data, 2),
                    },
                )
            }
        } else if opcode == 1 {
            Ok(Operation::RefreshPrice)
        } else if opcode == 2 {
            Ok(Operation::Join { supplied_price: price_field(data, 1) })
        } else if opcode == 3 {
            Ok(Operation::Resolve { supplied_price: price_field(data, 1) })
        } else if opcode == 4 {
            Ok(Operation::Unwind)
        } else if opcode == 5 {
            Ok(Operation::Close)
        } else {
            Err(WagerError::UnknownOperation)
        }
    }
}

/// Read the optional little-endian price field at `start`.
fn price_field(data: &[u8], start: usize) -> (r: Option<u64>)
    requires
        start <= 2,
    ensures
        r == spec_price_field(data@, start as int),
{
    if data.len() >= start + 8 {
        let field = slice_subrange(data, start, start + 8);
        Some(u64_from_le_bytes(field))
    } else {
        None
    }
}

} // verus!

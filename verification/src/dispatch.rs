use vstd::prelude::*;

use vstd::bytes::{lemma_auto_spec_u64_to_from_le_bytes, spec_u64_from_le_bytes,
    spec_u64_to_le_bytes, u64_from_le_bytes, u64_to_le_bytes};

use crate::error::HookError;

verus! {

/// Number of bytes in an instruction tag.
pub const TAG_LEN: usize = 8;

/// Number of bytes in a complete execute instruction: the tag followed by a
/// little-endian 64-bit amount.
pub const EXECUTE_DATA_LEN: usize = 16;

/// The tag that selects the execute variant of the transfer-hook interface:
/// the first eight bytes of the SHA-256 digest of
/// "spl-transfer-hook-interface:execute".
pub open spec fn spec_execute_tag() -> Seq<u8> {
    seq![105u8, 37u8, 101u8, 197u8, 75u8, 251u8, 102u8, 26u8]
}

/// The execute tag, as a byte buffer.
pub fn execute_tag() -> (r: Vec<u8>)
    ensures
        r@ == spec_execute_tag(),
{
    let mut v: Vec<u8> = Vec::new();
    v.push(105);
    v.push(37);
    v.push(101);
    v.push(197);
    v.push(75);
    v.push(251);
    v.push(102);
    v.push(26);
    proof {
        assert(v@ =~= spec_execute_tag());
    }
    v
}

/// What the dispatcher decodes from raw instruction bytes. The instruction
/// surface is a closed world: only a payload that starts with the execute tag
/// and carries at least eight further bytes decodes, to the little-endian
/// amount in bytes 8 to 16; everything else - a short payload, an unknown
/// tag, or any other variant of the foreign interface - is invalid
/// instruction data.
pub open spec fn spec_decode_execute(data: Seq<u8>) -> Result<u64, HookError> {
    if data.len() >= TAG_LEN && data.subrange(0, TAG_LEN as int) == spec_execute_tag() {
        if data.len() >= EXECUTE_DATA_LEN {
            Ok(spec_u64_from_le_bytes(data.subrange(TAG_LEN as int, EXECUTE_DATA_LEN as int)))
        } else {
            Err(HookError::InvalidInstructionData)
        }
    } else {
        Err(HookError::InvalidInstructionData)
    }
}

/// Decodes raw instruction bytes as a tagged instruction of the transfer-hook
/// interface, accepting exactly the execute variant.
pub fn decode_execute(data: &Vec<u8>) -> (r: Result<u64, HookError>)
    ensures
        r == spec_decode_execute(data@),
{
    if data.len() < EXECUTE_DATA_LEN {
        proof {
            if data@.len() >= TAG_LEN {
                assert(spec_decode_execute(data@) == Err::<u64, HookError>(
                    HookError::InvalidInstructionData,
                ));
            }
        }
        return Err(HookError::InvalidInstructionData);
    }
    let tag = execute_tag();
    let mut i: usize = 0;
    while i < TAG_LEN
        invariant
            i <= TAG_LEN,
            data@.len() >= EXECUTE_DATA_LEN,
            tag@ == spec_execute_tag(),
            forall|j: int| 0 <= j < i ==> data@[j] == spec_execute_tag()[j],
        decreases TAG_LEN - i,
    {
        if data[i] != tag[i] {
            proof {
                assert(data@.subrange(0, TAG_LEN as int)[i as int] != spec_execute_tag()[i as int]);
            }
            return Err(HookError::InvalidInstructionData);
        }
        i += 1;
    }
    proof {
        assert(data@.subrange(0, TAG_LEN as int) =~= spec_execute_tag());
    }
    let payload = vstd::slice::slice_subrange(data.as_slice(), TAG_LEN, EXECUTE_DATA_LEN);
    let amount = u64_from_le_bytes(payload);
    Ok(amount)
}

/// An execute instruction accepted by the dispatcher: the decoded amount,
/// re-encoded as the little-endian payload that is forwarded to the hook body
/// together with the original account list.
#[derive(Debug)]
pub struct ForwardedExecute {
    pub amount: u64,
    pub payload: Vec<u8>,
}

/// The foreign-invocation entry point. Decodes the raw instruction bytes that
/// the token-accounting collaborator sends by delegated invocation; on the
/// execute variant it re-encodes the amount for the hook body, and on
/// anything else it rejects with invalid instruction data, so the hook body
/// is never reached on an unrecognized tag.
pub fn fallback(data: &Vec<u8>) -> (r: Result<ForwardedExecute, HookError>)
    ensures
        r matches Ok(f) ==> {
            &&& spec_decode_execute(data@) == Ok::<u64, HookError>(f.amount)
            &&& f.payload@ == spec_u64_to_le_bytes(f.amount)
        },
        r matches Err(e) ==> spec_decode_execute(data@) == Err::<u64, HookError>(e),
{
    let amount = decode_execute(data)?;
    let payload = u64_to_le_bytes(amount);
    Ok(ForwardedExecute { amount, payload })
}

/// Round trip of the execute wire format: a payload built from the execute
/// tag followed by the little-endian encoding of an amount decodes back to
/// exactly that amount, whatever trailing bytes follow.
pub proof fn lemma_execute_round_trip(amount: u64, trailing: Seq<u8>)
    ensures
        spec_decode_execute(spec_execute_tag() + spec_u64_to_le_bytes(amount) + trailing)
            == Ok::<u64, HookError>(amount),
{
    lemma_auto_spec_u64_to_from_le_bytes();
    let data = spec_execute_tag() + spec_u64_to_le_bytes(amount) + trailing;
    assert(data.subrange(0, TAG_LEN as int) =~= spec_execute_tag());
    assert(data.subrange(TAG_LEN as int, EXECUTE_DATA_LEN as int) =~= spec_u64_to_le_bytes(amount));
}

/// A payload whose tag differs from the execute tag never decodes: the hook
/// body is unreachable for every other instruction variant.
pub proof fn lemma_unknown_tag_rejected(data: Seq<u8>)
    requires
        data.len() < TAG_LEN || data.subrange(0, TAG_LEN as int) != spec_execute_tag(),
    ensures
        spec_decode_execute(data) == Err::<u64, HookError>(HookError::InvalidInstructionData),
{
}

} // verus!

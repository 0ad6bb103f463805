//! Call payloads: the transfer engine's fixed shape, and the native entry point's
//! own encoding of the amount.

use vstd::prelude::*;
use vstd::bytes::{spec_u64_from_le_bytes, spec_u64_to_le_bytes, u64_from_le_bytes, u64_to_le_bytes};
use vstd::slice::slice_subrange;

verus! {

/// The tag that opens an execute request in the engine's shape.
pub const EXECUTE_TAG: [u8; 8] = [105, 37, 101, 197, 75, 251, 102, 26];

/// Bytes of the tag that opens a payload in the engine's shape.
pub const DISCRIMINATOR_BYTES: usize = 8;

/// Bytes of an encoded amount.
pub const AMOUNT_BYTES: usize = 8;

/// A request in the transfer engine's shape. Only execute requests are decoded:
/// payloads under any other tag are refused unread.
#[derive(Clone, Copy, Debug, PartialEq, Eq, Structural)]
pub enum HookInstruction {
    /// Decide a transfer of `amount`.
    Execute { amount: u64 },
    /// Write a companion-account list. Not served here.
    InitializeExtraAccountMetaList,
    /// Overwrite a companion-account list. Not served here.
    UpdateExtraAccountMetaList,
}

/// Whether `data` opens with the execute tag.
pub open spec fn has_execute_tag(data: Seq<u8>) -> bool {
    data.len() >= DISCRIMINATOR_BYTES && data.subrange(0, DISCRIMINATOR_BYTES as int)
        == EXECUTE_TAG@
}

/// An execute request for `amount` in the engine's shape: the tag, then the amount
/// in eight little-endian bytes.
pub open spec fn execute_payload(amount: u64) -> Seq<u8> {
    EXECUTE_TAG@ + spec_u64_to_le_bytes(amount)
}

/// The request that a payload in the engine's shape holds: an execute request where
/// the payload opens with the execute tag and goes on with at least eight bytes,
/// which are the amount, little-endian. Every other payload holds none.
pub open spec fn hook_instruction(data: Seq<u8>) -> Option<HookInstruction> {
    if has_execute_tag(data) && data.len() >= DISCRIMINATOR_BYTES + AMOUNT_BYTES {
        Some(
            HookInstruction::Execute {
                amount: spec_u64_from_le_bytes(
                    data.subrange(
                        DISCRIMINATOR_BYTES as int,
                        DISCRIMINATOR_BYTES + AMOUNT_BYTES,
                    ),
                ),
            },
        )
    } else {
        None
    }
}

/// The amount that the native entry point reads from its payload: the first eight
/// bytes, little-endian. A shorter payload holds none.
pub open spec fn native_amount(data: Seq<u8>) -> Option<u64> {
    if data.len() < AMOUNT_BYTES {
        None
    } else {
        Some(spec_u64_from_le_bytes(data.subrange(0, AMOUNT_BYTES as int)))
    }
}

/// Calls `spl_transfer_hook_interface::instruction::TransferHookInstruction::unpack`
/// and tells its variants apart.
///
/// Trusted: `EXECUTE_TAG` is the tag of the interface's `ExecuteInstruction`. On a
/// payload that opens with it the call takes its execute branch, which does not
/// panic: it returns an execute request with the amount read little-endian from
/// bytes 8 to 16, and fails where the payload has fewer than 16 bytes. Payloads
/// under other tags are kept out, because the call may slice past their end.
#[verifier::external_body]
fn unpack_instruction(data: &[u8]) -> (result: Result<
    HookInstruction,
    spl_transfer_hook_interface::solana_program::program_error::ProgramError,
>)
    requires
        has_execute_tag(data@),
    ensures
        match result {
            Ok(instruction) => hook_instruction(data@) == Some(instruction),
            Err(_) => hook_instruction(data@) is None,
        },
{
    match spl_transfer_hook_interface::instruction::TransferHookInstruction::unpack(data) {
        Ok(spl_transfer_hook_interface::instruction::TransferHookInstruction::Execute { amount }) => Ok(HookInstruction::Execute { amount }),
        Ok(spl_transfer_hook_interface::instruction::TransferHookInstruction::InitializeExtraAccountMetaList { .. }) => Ok(HookInstruction::InitializeExtraAccountMetaList),
        Ok(spl_transfer_hook_interface::instruction::TransferHookInstruction::UpdateExtraAccountMetaList { .. }) => Ok(HookInstruction::UpdateExtraAccountMetaList),
        Err(e) => Err(e),
    }
}

/// Whether a payload opens with the execute tag.
pub fn opens_with_execute_tag(data: &[u8]) -> (found: bool)
    ensures
        found == has_execute_tag(data@),
{
    if data.len() < DISCRIMINATOR_BYTES {
        return false;
    }
    let mut i: usize = 0;
    while i < DISCRIMINATOR_BYTES
        invariant
            i <= DISCRIMINATOR_BYTES,
            data@.len() >= DISCRIMINATOR_BYTES,
            forall|j: int| 0 <= j < i ==> data@[j] == EXECUTE_TAG@[j],
        decreases DISCRIMINATOR_BYTES - i,
    {
        if data[i] != EXECUTE_TAG[i] {
            assert(data@.subrange(0, DISCRIMINATOR_BYTES as int)[i as int] == data@[i as int]);
            return false;
        }
        i += 1;
    }
    assert(data@.subrange(0, DISCRIMINATOR_BYTES as int) =~= EXECUTE_TAG@);
    true
}

/// Reads a payload in the engine's shape. A payload that does not open with the
/// execute tag is refused without being read any further.
pub fn decode_hook_instruction(data: &[u8]) -> (instruction: Option<HookInstruction>)
    ensures
        instruction == hook_instruction(data@),
        data@.len() < 16 ==> instruction is None,
{
    if !opens_with_execute_tag(data) {
        return None;
    }
    match unpack_instruction(data) {
        Ok(instruction) => Some(instruction),
        Err(_) => None,
    }
}

/// Encodes an amount as the native entry point expects it.
pub fn encode_amount(amount: u64) -> (data: Vec<u8>)
    ensures
        data@ == spec_u64_to_le_bytes(amount),
        data@.len() == 8,
        native_amount(data@) == Some(amount),
{
    let data = u64_to_le_bytes(amount);
    proof {
        lemma_amount_round_trip(amount);
    }
    data
}

/// Reads the amount from the native entry point's payload.
pub fn decode_amount(data: &[u8]) -> (amount: Option<u64>)
    ensures
        amount == native_amount(data@),
{
    if data.len() < AMOUNT_BYTES {
        return None;
    }
    let head = slice_subrange(data, 0, AMOUNT_BYTES);
    Some(u64_from_le_bytes(head))
}

/// An encoded amount reads back as itself.
pub proof fn lemma_amount_round_trip(amount: u64)
    ensures
        spec_u64_to_le_bytes(amount).len() == 8,
        native_amount(spec_u64_to_le_bytes(amount)) == Some(amount),
{
    vstd::bytes::lemma_auto_spec_u64_to_from_le_bytes();
    let bytes = spec_u64_to_le_bytes(amount);
    assert(bytes.subrange(0, 8) =~= bytes);
}

/// An execute request in the engine's shape decodes to its amount.
pub proof fn lemma_execute_payload_decodes(amount: u64)
    ensures
        execute_payload(amount).len() == 16,
        hook_instruction(execute_payload(amount)) == Some(HookInstruction::Execute { amount }),
{
    vstd::bytes::lemma_auto_spec_u64_to_from_le_bytes();
    let bytes = spec_u64_to_le_bytes(amount);
    let payload = execute_payload(amount);
    assert(payload.subrange(0, 8) =~= EXECUTE_TAG@);
    assert(payload.subrange(8, 16) =~= bytes);
}

} // verus!

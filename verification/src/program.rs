//! The calls: registering an asset, changing its record, publishing its
//! companion-account list, the transfer gate, and the dispatcher that turns the
//! transfer engine's payload into a gate call.

use vstd::prelude::*;
use vstd::bytes::spec_u64_to_le_bytes;
use crate::address::{Address, Authority};
use crate::error::RwaError;
use crate::instruction::{
    decode_amount,
    decode_hook_instruction,
    encode_amount,
    hook_instruction,
    native_amount,
    HookInstruction,
};
use crate::ledger::{Ledger, LedgerView, MetaListView};
use crate::meta_list::{
    lay_out_extra_account_metas,
    published_list,
    required_extra_account_metas,
    ExtraAccountMeta,
    META_LIST_HEADER_BYTES,
};
use crate::record::{
    created_record,
    gate_verdict,
    may_update,
    text_view,
    updated_record,
    AssetDetails,
    AssetDetailsView,
};

verus! {

/// What the greeting call is given: nothing.
#[derive(Clone, Copy, Debug, PartialEq, Eq)]
pub struct Initialize {}

/// What registering an asset is given besides the record's fields.
#[derive(Clone, Copy, Debug, PartialEq, Eq)]
pub struct InitializeAsset {
    /// The identity that becomes the record's custodian, and whether it co-signed.
    pub custodian: Authority,
    /// The asset's token identity.
    pub mint: Address,
    /// The runtime's clock reading, as a Unix timestamp.
    pub unix_timestamp: i64,
    /// The minimum balance the runtime requires for the companion-account list.
    pub lamports: u64,
}

/// What changing a record is given besides the new values.
#[derive(Clone, Copy, Debug, PartialEq, Eq)]
pub struct UpdateAssetDetails {
    /// The identity that asks for the change, and whether it co-signed.
    pub custodian: Authority,
    /// The asset's token identity.
    pub mint: Address,
}

/// What publishing a companion-account list is given.
#[derive(Clone, Copy, Debug, PartialEq, Eq)]
pub struct InitializeExtraAccountMetaList {
    /// The asset's token identity.
    pub mint: Address,
    /// The minimum balance the runtime requires for the list.
    pub lamports: u64,
}

/// What the transfer engine hands the transfer gate. Only the mint enters the
/// verdict; the holding accounts and the owner are accepted and not examined.
#[derive(Clone, Copy, Debug, PartialEq, Eq)]
pub struct TransferHook {
    /// The holding account the tokens leave.
    pub source_token: Address,
    /// The asset's token identity.
    pub mint: Address,
    /// The holding account the tokens reach.
    pub destination_token: Address,
    /// The owner of the source holding account.
    pub owner: Address,
}

/// Registering an asset, given the record to write and the list as published.
/// Authorization comes first, then the allocation of both records. Either both
/// records are written or nothing.
pub open spec fn register_model(
    ledger: LedgerView,
    ctx: InitializeAsset,
    record: AssetDetailsView,
    list_data: Seq<u8>,
) -> (Result<(), RwaError>, LedgerView) {
    if !ctx.custodian.is_signer {
        (Err(RwaError::UnauthorizedCustodian), ledger)
    } else if ledger.assets.contains_key(ctx.mint@) || ledger.meta_lists.contains_key(ctx.mint@) {
        (Err(RwaError::DuplicateRecord), ledger)
    } else {
        (
            Ok(()),
            ledger.with_asset(ctx.mint@, record).with_meta_list(
                ctx.mint@,
                MetaListView { lamports: ctx.lamports, data: list_data },
            ),
        )
    }
}

/// Publishing a companion-account list, given the list as published.
pub open spec fn publish_model(
    ledger: LedgerView,
    ctx: InitializeExtraAccountMetaList,
    list_data: Seq<u8>,
) -> (Result<(), RwaError>, LedgerView) {
    if ledger.meta_lists.contains_key(ctx.mint@) {
        (Err(RwaError::DuplicateRecord), ledger)
    } else {
        (
            Ok(()),
            ledger.with_meta_list(
                ctx.mint@,
                MetaListView { lamports: ctx.lamports, data: list_data },
            ),
        )
    }
}

/// Changing a record: allowed to the co-signing custodian of an existing record,
/// refused to everyone else with the store untouched.
pub open spec fn update_model(
    ledger: LedgerView,
    ctx: UpdateAssetDetails,
    valuation: Option<u64>,
    compliance_status: Option<bool>,
    metadata_uri: Option<Seq<char>>,
) -> (Result<(), RwaError>, LedgerView) {
    if ledger.assets.contains_key(ctx.mint@) && may_update(
        ledger.assets[ctx.mint@],
        ctx.custodian,
    ) {
        (
            Ok(()),
            ledger.with_asset(
                ctx.mint@,
                updated_record(
                    ledger.assets[ctx.mint@],
                    valuation,
                    compliance_status,
                    metadata_uri,
                ),
            ),
        )
    } else {
        (Err(RwaError::UnauthorizedCustodian), ledger)
    }
}

/// The transfer gate's verdict on the asset `mint`: a transfer passes exactly when
/// the asset has a record and that record is compliant.
pub open spec fn gate_model(ledger: LedgerView, mint: Seq<u8>) -> Result<(), RwaError> {
    if ledger.assets.contains_key(mint) {
        gate_verdict(ledger.assets[mint])
    } else {
        Err(RwaError::NonCompliantAsset)
    }
}

/// The native entry point: reads the amount from its payload, then decides the
/// transfer.
pub open spec fn entry_model(ledger: LedgerView, mint: Seq<u8>, data: Seq<u8>) -> Result<
    (),
    RwaError,
> {
    match native_amount(data) {
        Some(_) => gate_model(ledger, mint),
        None => Err(RwaError::InvalidCallData),
    }
}

/// What the dispatcher passes on to the native entry point: the amount of an
/// execute request, encoded anew. Every other payload is refused.
pub open spec fn forwarded(data: Seq<u8>) -> Result<Seq<u8>, RwaError> {
    match hook_instruction(data) {
        Some(HookInstruction::Execute { amount }) => Ok(spec_u64_to_le_bytes(amount)),
        _ => Err(RwaError::InvalidCallData),
    }
}

/// The dispatcher: an execute request gets the verdict of the native entry point
/// on its re-encoded amount, and every other payload is refused before any record
/// is looked at.
pub open spec fn fallback_model(ledger: LedgerView, mint: Seq<u8>, data: Seq<u8>) -> Result<
    (),
    RwaError,
> {
    match forwarded(data) {
        Ok(payload) => entry_model(ledger, mint, payload),
        Err(e) => Err(e),
    }
}

/// The greeting call. It always succeeds and touches nothing.
pub fn initialize(ctx: &Initialize) -> (result: Result<(), RwaError>)
    ensures
        result is Ok,
{
    Ok(())
}

/// Writes `record` and the published list `list_data` for the asset of `ctx`, both
/// or neither.
pub fn register_asset(
    ledger: &mut Ledger,
    ctx: &InitializeAsset,
    record: AssetDetails,
    list_data: Vec<u8>,
) -> (result: Result<(), RwaError>)
    requires
        old(ledger).wf(),
    ensures
        final(ledger).wf(),
        (result, final(ledger)@) == register_model(old(ledger)@, *ctx, record@, list_data@),
{
    if !ctx.custodian.is_signer {
        return Err(RwaError::UnauthorizedCustodian);
    }
    if ledger.read(&ctx.mint).is_some() || ledger.companion_list(&ctx.mint).is_some() {
        return Err(RwaError::DuplicateRecord);
    }
    let allocated = ledger.allocate_asset(&ctx.mint, record);
    assert(allocated is Ok);
    ledger.allocate_meta_list(&ctx.mint, ctx.lamports, list_data)
}

/// Registers an asset: writes its compliance record, compliant and dated with the
/// clock reading of `ctx`, and publishes its companion-account list.
pub fn initialize_asset(
    ledger: &mut Ledger,
    ctx: &InitializeAsset,
    asset_type: String,
    identifier: String,
    jurisdiction: String,
    valuation: u64,
    metadata_uri: String,
) -> (result: Result<(), RwaError>)
    requires
        old(ledger).wf(),
    ensures
        final(ledger).wf(),
        (result, final(ledger)@) == register_model(
            old(ledger)@,
            *ctx,
            created_record(
                asset_type@,
                identifier@,
                jurisdiction@,
                valuation,
                ctx.unix_timestamp,
                ctx.custodian.key@,
                metadata_uri@,
            ),
            published_list(Seq::<ExtraAccountMeta>::empty()),
        ),
        result is Ok ==> final(ledger)@.meta_lists[ctx.mint@].data.len()
            == META_LIST_HEADER_BYTES,
{
    let record = AssetDetails::create(
        asset_type,
        identifier,
        jurisdiction,
        valuation,
        ctx.unix_timestamp,
        ctx.custodian.key,
        metadata_uri,
    );
    let account_metas = required_extra_account_metas();
    let list_data = lay_out_extra_account_metas(&account_metas).unwrap();
    register_asset(ledger, ctx, record, list_data)
}

/// Overwrites the supplied fields of the asset's record. Absent fields, the audit
/// date and the custodian keep their values.
pub fn update_asset_details(
    ledger: &mut Ledger,
    ctx: &UpdateAssetDetails,
    valuation: Option<u64>,
    compliance_status: Option<bool>,
    metadata_uri: Option<String>,
) -> (result: Result<(), RwaError>)
    requires
        old(ledger).wf(),
    ensures
        final(ledger).wf(),
        (result, final(ledger)@) == update_model(
            old(ledger)@,
            *ctx,
            valuation,
            compliance_status,
            text_view(metadata_uri),
        ),
{
    let mut record = match ledger.read(&ctx.mint) {
        Some(stored) => stored.duplicate(),
        None => {
            return Err(RwaError::UnauthorizedCustodian);
        },
    };
    match record.update(&ctx.custodian, valuation, compliance_status, metadata_uri) {
        Ok(_) => {
            ledger.store_asset(&ctx.mint, record);
            Ok(())
        },
        Err(e) => Err(e),
    }
}

/// Writes the published list `list_data` as the companion-account list of the
/// asset of `ctx`.
pub fn publish_meta_list(
    ledger: &mut Ledger,
    ctx: &InitializeExtraAccountMetaList,
    list_data: Vec<u8>,
) -> (result: Result<(), RwaError>)
    requires
        old(ledger).wf(),
    ensures
        final(ledger).wf(),
        (result, final(ledger)@) == publish_model(old(ledger)@, *ctx, list_data@),
{
    ledger.allocate_meta_list(&ctx.mint, ctx.lamports, list_data)
}

/// Publishes the companion-account list of an asset: storage of exactly the list's
/// size, funded with the balance in `ctx`, holding the list.
pub fn initialize_extra_account_meta_list(
    ledger: &mut Ledger,
    ctx: &InitializeExtraAccountMetaList,
) -> (result: Result<(), RwaError>)
    requires
        old(ledger).wf(),
    ensures
        final(ledger).wf(),
        (result, final(ledger)@) == publish_model(
            old(ledger)@,
            *ctx,
            published_list(Seq::<ExtraAccountMeta>::empty()),
        ),
        result is Ok ==> final(ledger)@.meta_lists[ctx.mint@].data.len()
            == META_LIST_HEADER_BYTES,
{
    let account_metas = required_extra_account_metas();
    let list_data = lay_out_extra_account_metas(&account_metas).unwrap();
    publish_meta_list(ledger, ctx, list_data)
}

/// The transfer gate: vetoes the transfer unless the asset has a compliant record.
/// The amount does not enter the verdict, and the store is only read.
pub fn transfer_hook(ledger: &Ledger, ctx: &TransferHook, amount: u64) -> (result: Result<
    (),
    RwaError,
>)
    requires
        ledger.wf(),
    ensures
        result == gate_model(ledger@, ctx.mint@),
{
    match ledger.read(&ctx.mint) {
        Some(record) => record.check(amount),
        None => Err(RwaError::NonCompliantAsset),
    }
}

/// The transfer gate's native entry point: reads the amount from `data` and decides
/// the transfer.
pub fn transfer_hook_entry(ledger: &Ledger, accounts: &TransferHook, data: &[u8]) -> (result:
    Result<(), RwaError>)
    requires
        ledger.wf(),
    ensures
        result == entry_model(ledger@, accounts.mint@, data@),
{
    match decode_amount(data) {
        Some(amount) => transfer_hook(ledger, accounts, amount),
        None => Err(RwaError::InvalidCallData),
    }
}

/// The payload that the dispatcher passes on to the native entry point for a
/// payload in the transfer engine's shape: the amount of an execute request,
/// encoded anew. Every other payload is refused.
pub fn forwarded_payload(data: &[u8]) -> (result: Result<Vec<u8>, RwaError>)
    ensures
        match result {
            Ok(payload) => forwarded(data@) == Ok::<Seq<u8>, RwaError>(payload@),
            Err(e) => forwarded(data@) == Err::<Seq<u8>, RwaError>(e),
        },
        result matches Ok(payload) ==> native_amount(payload@) is Some,
        data@.len() < 16 ==> result == Err::<Vec<u8>, RwaError>(RwaError::InvalidCallData),
{
    match decode_hook_instruction(data) {
        Some(HookInstruction::Execute { amount }) => Ok(encode_amount(amount)),
        _ => Err(RwaError::InvalidCallData),
    }
}

/// Serves a payload in the transfer engine's shape, with the engine's accounts
/// passed on unchanged: an execute request gets the verdict that the transfer gate
/// gives on the same store, and every other payload is refused before any record
/// is looked at.
pub fn fallback(ledger: &Ledger, accounts: &TransferHook, data: &[u8]) -> (result: Result<
    (),
    RwaError,
>)
    requires
        ledger.wf(),
    ensures
        result == fallback_model(ledger@, accounts.mint@, data@),
        hook_instruction(data@) is Some ==> result == gate_model(ledger@, accounts.mint@),
        hook_instruction(data@) is None ==> result == Err::<(), RwaError>(
            RwaError::InvalidCallData,
        ),
        data@.len() < 16 ==> result == Err::<(), RwaError>(RwaError::InvalidCallData),
{
    match forwarded_payload(data) {
        Ok(amount_bytes) => transfer_hook_entry(ledger, accounts, amount_bytes.as_slice()),
        Err(e) => Err(e),
    }
}

} // verus!

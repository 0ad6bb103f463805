//! What holds of every call and of every sequence of calls, stated over the models
//! that the calls' contracts use.

use vstd::prelude::*;
use crate::error::RwaError;
use crate::instruction::{
    execute_payload,
    has_execute_tag,
    hook_instruction,
    lemma_amount_round_trip,
    lemma_execute_payload_decodes,
};
use crate::ledger::LedgerView;
use crate::meta_list::{published_list, ExtraAccountMeta, META_LIST_HEADER_BYTES};
use crate::program::{
    fallback_model,
    gate_model,
    publish_model,
    register_model,
    update_model,
    InitializeAsset,
    InitializeExtraAccountMetaList,
    UpdateAssetDetails,
};
use crate::record::{created_record, AssetDetailsView};

verus! {

/// Every registration that succeeds leaves a record that is compliant, is dated with
/// the clock reading of the call, names the supplied custodian and holds the
/// supplied fields; reading the asset afterwards returns that record.
pub proof fn law_registration_writes_compliant_dated_record(
    ledger: LedgerView,
    ctx: InitializeAsset,
    asset_type: Seq<char>,
    identifier: Seq<char>,
    jurisdiction: Seq<char>,
    valuation: u64,
    metadata_uri: Seq<char>,
    list_data: Seq<u8>,
)
    requires
        register_model(
            ledger,
            ctx,
            created_record(
                asset_type,
                identifier,
                jurisdiction,
                valuation,
                ctx.unix_timestamp,
                ctx.custodian.key@,
                metadata_uri,
            ),
            list_data,
        ).0 is Ok,
    ensures
        ({
            let after = register_model(
                ledger,
                ctx,
                created_record(
                    asset_type,
                    identifier,
                    jurisdiction,
                    valuation,
                    ctx.unix_timestamp,
                    ctx.custodian.key@,
                    metadata_uri,
                ),
                list_data,
            ).1;
            &&& after.assets.contains_key(ctx.mint@)
            &&& after.assets[ctx.mint@].compliance_status
            &&& after.assets[ctx.mint@].last_audit_date == ctx.unix_timestamp
            &&& after.assets[ctx.mint@].custodian == ctx.custodian.key@
            &&& after.assets[ctx.mint@].valuation == valuation
            &&& after.assets[ctx.mint@].asset_type == asset_type
            &&& after.assets[ctx.mint@].identifier == identifier
            &&& after.assets[ctx.mint@].jurisdiction == jurisdiction
            &&& after.assets[ctx.mint@].metadata_uri == metadata_uri
            &&& gate_model(after, ctx.mint@) is Ok
        }),
{
}

/// A registration that succeeds also publishes the asset's companion-account list,
/// funded as the call said, and leaves every other asset as it was.
pub proof fn law_registration_publishes_list(
    ledger: LedgerView,
    ctx: InitializeAsset,
    record: AssetDetailsView,
    list_data: Seq<u8>,
    other: Seq<u8>,
)
    requires
        register_model(ledger, ctx, record, list_data).0 is Ok,
        other != ctx.mint@,
    ensures
        ({
            let after = register_model(ledger, ctx, record, list_data).1;
            &&& after.meta_lists.contains_key(ctx.mint@)
            &&& after.meta_lists[ctx.mint@].data == list_data
            &&& after.meta_lists[ctx.mint@].lamports == ctx.lamports
            &&& after.assets.contains_key(other) == ledger.assets.contains_key(other)
            &&& after.assets.contains_key(other) ==> after.assets[other] == ledger.assets[other]
            &&& after.meta_lists.contains_key(other) == ledger.meta_lists.contains_key(other)
            &&& after.meta_lists.contains_key(other) ==> after.meta_lists[other]
                == ledger.meta_lists[other]
        }),
{
}

/// An asset is registered at most once: after a registration that succeeded, every
/// further registration of the same asset is refused as a duplicate, or as
/// unauthorized where its custodian did not co-sign, and changes nothing.
pub proof fn law_second_registration_is_refused(
    ledger: LedgerView,
    first: InitializeAsset,
    first_record: AssetDetailsView,
    first_list: Seq<u8>,
    second: InitializeAsset,
    second_record: AssetDetailsView,
    second_list: Seq<u8>,
)
    requires
        register_model(ledger, first, first_record, first_list).0 is Ok,
        second.mint@ == first.mint@,
    ensures
        ({
            let after = register_model(ledger, first, first_record, first_list).1;
            let again = register_model(after, second, second_record, second_list);
            &&& again.1 == after
            &&& again.0 == Err::<(), RwaError>(
                if second.custodian.is_signer {
                    RwaError::DuplicateRecord
                } else {
                    RwaError::UnauthorizedCustodian
                },
            )
        }),
{
}

/// A failed call leaves the store as it was, whichever call it is.
pub proof fn law_failure_changes_nothing(
    ledger: LedgerView,
    create: InitializeAsset,
    record: AssetDetailsView,
    list_data: Seq<u8>,
    publish: InitializeExtraAccountMetaList,
    update: UpdateAssetDetails,
    valuation: Option<u64>,
    compliance_status: Option<bool>,
    metadata_uri: Option<Seq<char>>,
)
    ensures
        register_model(ledger, create, record, list_data).0 is Err ==> register_model(
            ledger,
            create,
            record,
            list_data,
        ).1 == ledger,
        publish_model(ledger, publish, list_data).0 is Err ==> publish_model(
            ledger,
            publish,
            list_data,
        ).1 == ledger,
        update_model(ledger, update, valuation, compliance_status, metadata_uri).0 is Err
            ==> update_model(ledger, update, valuation, compliance_status, metadata_uri).1
            == ledger,
{
}

/// A change asked for by anyone but the record's custodian is refused as
/// unauthorized, and no field of any record changes.
pub proof fn law_update_by_other_is_refused(
    ledger: LedgerView,
    ctx: UpdateAssetDetails,
    valuation: Option<u64>,
    compliance_status: Option<bool>,
    metadata_uri: Option<Seq<char>>,
)
    requires
        ledger.assets.contains_key(ctx.mint@),
        ctx.custodian.key@ != ledger.assets[ctx.mint@].custodian,
    ensures
        update_model(ledger, ctx, valuation, compliance_status, metadata_uri) == (
            Err::<(), RwaError>(RwaError::UnauthorizedCustodian),
            ledger,
        ),
{
}

/// A change that the custodian did not co-sign is refused as unauthorized, and no
/// field of any record changes.
pub proof fn law_unsigned_update_is_refused(
    ledger: LedgerView,
    ctx: UpdateAssetDetails,
    valuation: Option<u64>,
    compliance_status: Option<bool>,
    metadata_uri: Option<Seq<char>>,
)
    requires
        !ctx.custodian.is_signer,
    ensures
        update_model(ledger, ctx, valuation, compliance_status, metadata_uri) == (
            Err::<(), RwaError>(RwaError::UnauthorizedCustodian),
            ledger,
        ),
{
}

/// After a change that supplied only `compliance_status = false`, every transfer of
/// the asset is vetoed, through the native call and through the dispatcher alike,
/// and the valuation and the metadata pointer are as before.
pub proof fn law_revoked_compliance_vetoes_transfers(
    ledger: LedgerView,
    ctx: UpdateAssetDetails,
    amount: u64,
)
    requires
        update_model(ledger, ctx, None, Some(false), None).0 is Ok,
    ensures
        ({
            let after = update_model(ledger, ctx, None, Some(false), None).1;
            &&& gate_model(after, ctx.mint@) == Err::<(), RwaError>(RwaError::NonCompliantAsset)
            &&& fallback_model(after, ctx.mint@, execute_payload(amount)) == Err::<(), RwaError>(
                RwaError::NonCompliantAsset,
            )
            &&& after.assets[ctx.mint@].valuation == ledger.assets[ctx.mint@].valuation
            &&& after.assets[ctx.mint@].metadata_uri == ledger.assets[ctx.mint@].metadata_uri
        }),
{
    lemma_amount_round_trip(amount);
    lemma_execute_payload_decodes(amount);
}

/// The companion-account list of an asset is published at most once: after a
/// publication that succeeded, every further one for the same asset is refused as a
/// duplicate and leaves the store as the first one left it.
pub proof fn law_second_publication_is_refused(
    ledger: LedgerView,
    first: InitializeExtraAccountMetaList,
    first_list: Seq<u8>,
    second: InitializeExtraAccountMetaList,
    second_list: Seq<u8>,
)
    requires
        publish_model(ledger, first, first_list).0 is Ok,
        second.mint@ == first.mint@,
    ensures
        publish_model(publish_model(ledger, first, first_list).1, second, second_list) == (
            Err::<(), RwaError>(RwaError::DuplicateRecord),
            publish_model(ledger, first, first_list).1,
        ),
{
}

/// Publishing alone and publishing as part of a registration write the same list
/// for the same asset, given the same funding.
pub proof fn law_both_paths_publish_same_list(
    ledger: LedgerView,
    create: InitializeAsset,
    record: AssetDetailsView,
    other_ledger: LedgerView,
    publish: InitializeExtraAccountMetaList,
    list_data: Seq<u8>,
)
    requires
        register_model(ledger, create, record, list_data).0 is Ok,
        publish_model(other_ledger, publish, list_data).0 is Ok,
        publish.mint@ == create.mint@,
        publish.lamports == create.lamports,
    ensures
        register_model(ledger, create, record, list_data).1.meta_lists[create.mint@]
            == publish_model(other_ledger, publish, list_data).1.meta_lists[publish.mint@],
{
}

/// A change that succeeds overwrites exactly the supplied fields: each supplied
/// value reads back, each absent one keeps its value, and the asset's type,
/// identifier, jurisdiction, audit date and custodian never change. Other assets
/// and all companion-account lists are untouched.
pub proof fn law_update_overwrites_supplied_fields_only(
    ledger: LedgerView,
    ctx: UpdateAssetDetails,
    valuation: Option<u64>,
    compliance_status: Option<bool>,
    metadata_uri: Option<Seq<char>>,
    other: Seq<u8>,
)
    requires
        update_model(ledger, ctx, valuation, compliance_status, metadata_uri).0 is Ok,
        other != ctx.mint@,
    ensures
        ({
            let before = ledger.assets[ctx.mint@];
            let after_ledger = update_model(
                ledger,
                ctx,
                valuation,
                compliance_status,
                metadata_uri,
            ).1;
            let after = after_ledger.assets[ctx.mint@];
            &&& ledger.assets.contains_key(ctx.mint@)
            &&& after_ledger.assets.contains_key(ctx.mint@)
            &&& after.valuation == if valuation is Some {
                valuation->0
            } else {
                before.valuation
            }
            &&& after.compliance_status == if compliance_status is Some {
                compliance_status->0
            } else {
                before.compliance_status
            }
            &&& after.metadata_uri == if metadata_uri is Some {
                metadata_uri->0
            } else {
                before.metadata_uri
            }
            &&& after.asset_type == before.asset_type
            &&& after.identifier == before.identifier
            &&& after.jurisdiction == before.jurisdiction
            &&& after.last_audit_date == before.last_audit_date
            &&& after.custodian == before.custodian
            &&& after_ledger.meta_lists == ledger.meta_lists
            &&& after_ledger.assets.contains_key(other) == ledger.assets.contains_key(other)
            &&& after_ledger.assets.contains_key(other) ==> after_ledger.assets[other]
                == ledger.assets[other]
        }),
{
}

/// Registering an asset with a valuation and reading it returns that valuation;
/// changing the valuation and reading again returns the new one, with every other
/// field as registration wrote it.
pub proof fn law_valuation_round_trip(
    ledger: LedgerView,
    create: InitializeAsset,
    asset_type: Seq<char>,
    identifier: Seq<char>,
    jurisdiction: Seq<char>,
    first: u64,
    metadata_uri: Seq<char>,
    list_data: Seq<u8>,
    update: UpdateAssetDetails,
    second: u64,
)
    requires
        update.mint@ == create.mint@,
        register_model(
            ledger,
            create,
            created_record(
                asset_type,
                identifier,
                jurisdiction,
                first,
                create.unix_timestamp,
                create.custodian.key@,
                metadata_uri,
            ),
            list_data,
        ).0 is Ok,
        update_model(
            register_model(
                ledger,
                create,
                created_record(
                    asset_type,
                    identifier,
                    jurisdiction,
                    first,
                    create.unix_timestamp,
                    create.custodian.key@,
                    metadata_uri,
                ),
                list_data,
            ).1,
            update,
            Some(second),
            None,
            None,
        ).0 is Ok,
    ensures
        ({
            let registered = register_model(
                ledger,
                create,
                created_record(
                    asset_type,
                    identifier,
                    jurisdiction,
                    first,
                    create.unix_timestamp,
                    create.custodian.key@,
                    metadata_uri,
                ),
                list_data,
            ).1;
            let changed = update_model(registered, update, Some(second), None, None).1;
            &&& registered.assets[create.mint@].valuation == first
            &&& changed.assets[create.mint@] == created_record(
                asset_type,
                identifier,
                jurisdiction,
                second,
                create.unix_timestamp,
                create.custodian.key@,
                metadata_uri,
            )
        }),
{
}

/// The list that a registration or a publication writes, the empty one, takes
/// exactly the bytes of a list's header.
pub proof fn law_empty_list_takes_header_bytes()
    ensures
        published_list(Seq::<ExtraAccountMeta>::empty()).len() == META_LIST_HEADER_BYTES,
{
    vstd::bytes::lemma_auto_spec_u32_to_from_le_bytes();
}

/// An execute request in the engine's shape gets the verdict that the native call
/// gives on the same store, whatever the amount.
pub proof fn law_execute_payload_gets_gate_verdict(
    ledger: LedgerView,
    mint: Seq<u8>,
    amount: u64,
)
    ensures
        fallback_model(ledger, mint, execute_payload(amount)) == gate_model(ledger, mint),
{
    lemma_amount_round_trip(amount);
    lemma_execute_payload_decodes(amount);
}

/// Every payload that holds a request gets the verdict that the native call gives
/// on the same store.
pub proof fn law_request_gets_gate_verdict(ledger: LedgerView, mint: Seq<u8>, data: Seq<u8>)
    requires
        hook_instruction(data) is Some,
    ensures
        fallback_model(ledger, mint, data) == gate_model(ledger, mint),
{
    let amount = hook_instruction(data)->0->amount;
    lemma_amount_round_trip(amount);
}

/// A payload under any tag but the execute tag is refused as invalid call data,
/// and the refusal does not depend on any record: it is the same on every store.
pub proof fn law_other_tag_is_refused(ledger: LedgerView, mint: Seq<u8>, data: Seq<u8>)
    requires
        !has_execute_tag(data),
    ensures
        fallback_model(ledger, mint, data) == Err::<(), RwaError>(RwaError::InvalidCallData),
{
}

/// A payload too short for a tag and an amount is refused as invalid call data,
/// whatever its tag.
pub proof fn law_short_payload_is_refused(ledger: LedgerView, mint: Seq<u8>, data: Seq<u8>)
    requires
        data.len() < 16,
    ensures
        fallback_model(ledger, mint, data) == Err::<(), RwaError>(RwaError::InvalidCallData),
{
}

} // verus!

//! The compliance record kept for each tokenized asset, and the rules for
//! creating it, changing it and gating transfers on it.

use vstd::prelude::*;
use crate::address::{Address, Authority};
use crate::error::RwaError;

verus! {

/// Bytes reserved for one stored record: an 8-byte account tag, then the fields at
/// their fixed widths.
pub const ASSET_DETAILS_SPACE: usize = 8 + 32 + 32 + 32 + 8 + 8 + 32 + 1 + 200;

/// The compliance record of one tokenized asset.
#[derive(Clone, Debug, PartialEq, Eq)]
pub struct AssetDetails {
    /// Category, such as "RealEstate".
    pub asset_type: String,
    /// External legal identifier.
    pub identifier: String,
    /// Legal jurisdiction.
    pub jurisdiction: String,
    /// Valuation in smallest-denomination units.
    pub valuation: u64,
    /// Unix timestamp taken when the record was created.
    pub last_audit_date: i64,
    /// The one identity allowed to change the record.
    pub custodian: Address,
    /// Whether transfers of the asset's token may proceed.
    pub compliance_status: bool,
    /// Pointer to metadata kept elsewhere.
    pub metadata_uri: String,
}

/// What a record holds, as mathematical values.
pub struct AssetDetailsView {
    pub asset_type: Seq<char>,
    pub identifier: Seq<char>,
    pub jurisdiction: Seq<char>,
    pub valuation: u64,
    pub last_audit_date: i64,
    pub custodian: Seq<u8>,
    pub compliance_status: bool,
    pub metadata_uri: Seq<char>,
}

impl View for AssetDetails {
    type V = AssetDetailsView;

    open spec fn view(&self) -> AssetDetailsView {
        AssetDetailsView {
            asset_type: self.asset_type@,
            identifier: self.identifier@,
            jurisdiction: self.jurisdiction@,
            valuation: self.valuation,
            last_audit_date: self.last_audit_date,
            custodian: self.custodian@,
            compliance_status: self.compliance_status,
            metadata_uri: self.metadata_uri@,
        }
    }
}

/// The record that creation writes: the supplied fields, the clock reading as audit
/// date, and compliance set.
pub open spec fn created_record(
    asset_type: Seq<char>,
    identifier: Seq<char>,
    jurisdiction: Seq<char>,
    valuation: u64,
    now: i64,
    custodian: Seq<u8>,
    metadata_uri: Seq<char>,
) -> AssetDetailsView {
    AssetDetailsView {
        asset_type,
        identifier,
        jurisdiction,
        valuation,
        last_audit_date: now,
        custodian,
        compliance_status: true,
        metadata_uri,
    }
}

/// Whether `caller` may change `record`: it co-signed the call and is the stored
/// custodian.
pub open spec fn may_update(record: AssetDetailsView, caller: Authority) -> bool {
    caller.is_signer && caller.key@ == record.custodian
}

/// `record` with each supplied field overwritten and every other field kept.
pub open spec fn updated_record(
    record: AssetDetailsView,
    valuation: Option<u64>,
    compliance_status: Option<bool>,
    metadata_uri: Option<Seq<char>>,
) -> AssetDetailsView {
    AssetDetailsView {
        valuation: match valuation {
            Some(v) => v,
            None => record.valuation,
        },
        compliance_status: match compliance_status {
            Some(s) => s,
            None => record.compliance_status,
        },
        metadata_uri: match metadata_uri {
            Some(u) => u,
            None => record.metadata_uri,
        },
        ..record
    }
}

/// The verdict on a transfer of the record's asset: a veto exactly when the record
/// is not compliant.
pub open spec fn gate_verdict(record: AssetDetailsView) -> Result<(), RwaError> {
    if record.compliance_status {
        Ok(())
    } else {
        Err(RwaError::NonCompliantAsset)
    }
}

/// The view of an optional string.
pub open spec fn text_view(text: Option<String>) -> Option<Seq<char>> {
    match text {
        Some(s) => Some(s@),
        None => None,
    }
}

impl AssetDetails {
    /// Builds the record for a newly registered asset. The asset starts out compliant,
    /// and `now` becomes its audit date.
    pub fn create(
        asset_type: String,
        identifier: String,
        jurisdiction: String,
        valuation: u64,
        now: i64,
        custodian: Address,
        metadata_uri: String,
    ) -> (record: AssetDetails)
        ensures
            record@ == created_record(
                asset_type@,
                identifier@,
                jurisdiction@,
                valuation,
                now,
                custodian@,
                metadata_uri@,
            ),
    {
        AssetDetails {
            asset_type,
            identifier,
            jurisdiction,
            valuation,
            last_audit_date: now,
            custodian,
            compliance_status: true,
            metadata_uri,
        }
    }

    /// Overwrites the supplied fields on behalf of `caller`. Refused, with the record
    /// untouched, unless `caller` co-signed and is the record's custodian.
    pub fn update(
        &mut self,
        caller: &Authority,
        valuation: Option<u64>,
        compliance_status: Option<bool>,
        metadata_uri: Option<String>,
    ) -> (result: Result<(), RwaError>)
        ensures
            may_update(old(self)@, *caller) ==> result is Ok && final(self)@ == updated_record(
                old(self)@,
                valuation,
                compliance_status,
                text_view(metadata_uri),
            ),
            !may_update(old(self)@, *caller) ==> result == Err::<(), RwaError>(
                RwaError::UnauthorizedCustodian,
            ) && *final(self) == *old(self),
    {
        if !caller.is_signer || !caller.key.same(&self.custodian) {
            return Err(RwaError::UnauthorizedCustodian);
        }
        if let Some(val) = valuation {
            self.valuation = val;
        }
        if let Some(status) = compliance_status {
            self.compliance_status = status;
        }
        if let Some(uri) = metadata_uri {
            self.metadata_uri = uri;
        }
        Ok(())
    }

    /// Decides a transfer of `amount` units of the asset's token. The amount is
    /// accepted for future policy and does not affect the verdict.
    pub fn check(&self, amount: u64) -> (result: Result<(), RwaError>)
        ensures
            result == gate_verdict(self@),
    {
        if !self.compliance_status {
            return Err(RwaError::NonCompliantAsset);
        }
        Ok(())
    }

    /// A copy of the record.
    pub fn duplicate(&self) -> (copy: AssetDetails)
        ensures
            copy@ == self@,
    {
        AssetDetails {
            asset_type: self.asset_type.clone(),
            identifier: self.identifier.clone(),
            jurisdiction: self.jurisdiction.clone(),
            valuation: self.valuation,
            last_audit_date: self.last_audit_date,
            custodian: self.custodian,
            compliance_status: self.compliance_status,
            metadata_uri: self.metadata_uri.clone(),
        }
    }
}

} // verus!

//! The store: for each asset identity at most one compliance record and at most one
//! published companion-account list.

use vstd::prelude::*;
use crate::address::Address;
use crate::error::RwaError;
use crate::record::{AssetDetails, AssetDetailsView};
use crate::table::Table;

verus! {

/// A published companion-account list: its funding and its bytes.
#[derive(Clone, Debug, PartialEq, Eq)]
pub struct MetaListAccount {
    /// The balance the list's storage was funded with.
    pub lamports: u64,
    /// The list as published.
    pub data: Vec<u8>,
}

/// What a published list holds, as mathematical values.
pub struct MetaListView {
    pub lamports: u64,
    pub data: Seq<u8>,
}

impl View for MetaListAccount {
    type V = MetaListView;

    open spec fn view(&self) -> MetaListView {
        MetaListView { lamports: self.lamports, data: self.data@ }
    }
}

/// All records, keyed by asset identity.
pub struct Ledger {
    assets: Table<AssetDetails>,
    meta_lists: Table<MetaListAccount>,
}

/// The store as two maps from asset identity.
pub struct LedgerView {
    pub assets: Map<Seq<u8>, AssetDetailsView>,
    pub meta_lists: Map<Seq<u8>, MetaListView>,
}

impl LedgerView {
    /// The store with `record` written as the compliance record of `mint`.
    pub open spec fn with_asset(self, mint: Seq<u8>, record: AssetDetailsView) -> LedgerView {
        LedgerView { assets: self.assets.insert(mint, record), ..self }
    }

    /// The store with `list` written as the companion-account list of `mint`.
    pub open spec fn with_meta_list(self, mint: Seq<u8>, list: MetaListView) -> LedgerView {
        LedgerView { meta_lists: self.meta_lists.insert(mint, list), ..self }
    }

    /// Allocating a compliance record: refused where `mint` already has one.
    pub open spec fn allocate_asset(self, mint: Seq<u8>, record: AssetDetailsView) -> (
        Result<(), RwaError>,
        LedgerView,
    ) {
        if self.assets.contains_key(mint) {
            (Err(RwaError::DuplicateRecord), self)
        } else {
            (Ok(()), self.with_asset(mint, record))
        }
    }

    /// Allocating a companion-account list: refused where `mint` already has one.
    pub open spec fn allocate_meta_list(self, mint: Seq<u8>, list: MetaListView) -> (
        Result<(), RwaError>,
        LedgerView,
    ) {
        if self.meta_lists.contains_key(mint) {
            (Err(RwaError::DuplicateRecord), self)
        } else {
            (Ok(()), self.with_meta_list(mint, list))
        }
    }
}

impl View for Ledger {
    type V = LedgerView;

    closed spec fn view(&self) -> LedgerView {
        LedgerView {
            assets: self.assets.view().map_values(|d: AssetDetails| d@),
            meta_lists: self.meta_lists.view().map_values(|l: MetaListAccount| l@),
        }
    }
}

impl Ledger {
    /// No asset identity has two compliance records or two companion-account lists.
    pub closed spec fn wf(&self) -> bool {
        self.assets.wf() && self.meta_lists.wf()
    }

    /// A store without records.
    pub fn new() -> (ledger: Ledger)
        ensures
            ledger.wf(),
            ledger@.assets == Map::<Seq<u8>, AssetDetailsView>::empty(),
            ledger@.meta_lists == Map::<Seq<u8>, MetaListView>::empty(),
    {
        let ledger = Ledger { assets: Table::new(), meta_lists: Table::new() };
        assert(ledger@.assets =~= Map::<Seq<u8>, AssetDetailsView>::empty());
        assert(ledger@.meta_lists =~= Map::<Seq<u8>, MetaListView>::empty());
        ledger
    }

    /// The compliance record of `mint`. Reading changes nothing.
    pub fn read(&self, mint: &Address) -> (record: Option<&AssetDetails>)
        requires
            self.wf(),
        ensures
            match record {
                Some(r) => self@.assets.contains_key(mint@) && r@ == self@.assets[mint@],
                None => !self@.assets.contains_key(mint@),
            },
    {
        self.assets.get(mint)
    }

    /// The published companion-account list of `mint`.
    pub fn companion_list(&self, mint: &Address) -> (list: Option<&MetaListAccount>)
        requires
            self.wf(),
        ensures
            match list {
                Some(l) => self@.meta_lists.contains_key(mint@) && l@ == self@.meta_lists[mint@],
                None => !self@.meta_lists.contains_key(mint@),
            },
    {
        self.meta_lists.get(mint)
    }

    /// Allocates the compliance record of `mint` and writes `record` into it. Refused,
    /// with the store untouched, where `mint` already has a record.
    pub fn allocate_asset(&mut self, mint: &Address, record: AssetDetails) -> (result: Result<
        (),
        RwaError,
    >)
        requires
            old(self).wf(),
        ensures
            final(self).wf(),
            (result, final(self)@) == old(self)@.allocate_asset(mint@, record@),
    {
        if self.assets.contains(mint) {
            return Err(RwaError::DuplicateRecord);
        }
        self.assets.insert_new(*mint, record);
        assert(self@.assets =~= old(self)@.assets.insert(mint@, record@));
        Ok(())
    }

    /// Allocates the companion-account list of `mint`, funded with `lamports`, and
    /// writes `data` into it. Refused, with the store untouched, where `mint` already
    /// has a list.
    pub fn allocate_meta_list(&mut self, mint: &Address, lamports: u64, data: Vec<u8>) -> (result:
        Result<(), RwaError>)
        requires
            old(self).wf(),
        ensures
            final(self).wf(),
            (result, final(self)@) == old(self)@.allocate_meta_list(
                mint@,
                MetaListView { lamports, data: data@ },
            ),
    {
        if self.meta_lists.contains(mint) {
            return Err(RwaError::DuplicateRecord);
        }
        let list = MetaListAccount { lamports, data };
        self.meta_lists.insert_new(*mint, list);
        assert(self@.meta_lists =~= old(self)@.meta_lists.insert(mint@, list@));
        Ok(())
    }

    /// Overwrites the compliance record that `mint` has.
    pub fn store_asset(&mut self, mint: &Address, record: AssetDetails)
        requires
            old(self).wf(),
            old(self)@.assets.contains_key(mint@),
        ensures
            final(self).wf(),
            final(self)@ == old(self)@.with_asset(mint@, record@),
    {
        self.assets.replace(mint, record);
        assert(self@.assets =~= old(self)@.assets.insert(mint@, record@));
    }
}

} // verus!

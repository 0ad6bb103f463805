//! The companion-account list: the descriptors of the extra accounts that the
//! transfer engine has to supply when it calls the transfer gate, and the bytes
//! under which the list is published.

use vstd::prelude::*;
use vstd::bytes::spec_u32_to_le_bytes;
use crate::address::Address;
use crate::instruction::EXECUTE_TAG;

verus! {

/// Label from which the address of an asset's companion-account list is derived.
pub const EXTRA_ACCOUNT_METAS_SEED: [u8; 19] = [
    101, 120, 116, 114, 97, 45, 97, 99, 99, 111, 117, 110, 116, 45, 109, 101, 116, 97, 115,
];

/// Label from which the address of an asset's compliance record is derived.
pub const ASSET_SEED: [u8; 5] = [97, 115, 115, 101, 116];

/// Bytes that one descriptor takes in the published list.
pub const EXTRA_ACCOUNT_META_BYTES: usize = 35;

/// Bytes that the published list takes before its first descriptor: an 8-byte type
/// tag, a 4-byte length and a 4-byte count.
pub const META_LIST_HEADER_BYTES: usize = 16;

/// The most descriptors a list can hold: with one more, the length of what follows
/// the tag no longer fits its four bytes.
pub const MAX_LIST_ITEMS: usize = 122_713_351;

/// One extra account that the transfer gate needs: how its address is found, and
/// whether it signs and is written.
#[derive(Clone, Copy, Debug, PartialEq, Eq)]
pub struct ExtraAccountMeta {
    /// Tells a fixed address (0) from derived ones.
    pub discriminator: u8,
    /// The address, or the packed configuration from which it is derived.
    pub address_config: [u8; 32],
    /// Whether the account has to sign.
    pub is_signer: bool,
    /// Whether the account has to be writable.
    pub is_writable: bool,
}

/// Bytes needed to publish a list of `count` descriptors, or `None` where the count
/// alone is beyond what a length can hold. A size at the very top of the range is
/// capped there.
pub open spec fn meta_list_size(count: nat) -> Option<nat> {
    if EXTRA_ACCOUNT_META_BYTES * count + 4 > usize::MAX {
        None
    } else if EXTRA_ACCOUNT_META_BYTES * count + META_LIST_HEADER_BYTES > usize::MAX {
        Some(usize::MAX as nat)
    } else {
        Some((EXTRA_ACCOUNT_META_BYTES * count + META_LIST_HEADER_BYTES) as nat)
    }
}

/// `len` zero bytes: what freshly allocated storage holds.
pub open spec fn zeroed(len: nat) -> Seq<u8> {
    Seq::new(len, |i: int| 0u8)
}

/// One descriptor as published: its discriminator, its 32-byte address
/// configuration, then one byte each for whether it signs and is writable.
pub open spec fn meta_bytes(meta: ExtraAccountMeta) -> Seq<u8> {
    seq![meta.discriminator] + meta.address_config@ + seq![
        if meta.is_signer {
            1u8
        } else {
            0u8
        },
        if meta.is_writable {
            1u8
        } else {
            0u8
        },
    ]
}

/// The descriptors as published, one after the other.
pub open spec fn metas_bytes(metas: Seq<ExtraAccountMeta>) -> Seq<u8>
    decreases metas.len(),
{
    if metas.len() == 0 {
        Seq::<u8>::empty()
    } else {
        metas_bytes(metas.drop_last()) + meta_bytes(metas.last())
    }
}

/// A list as published: the execute tag, the length of what follows it in four
/// little-endian bytes, the count in four little-endian bytes, then the
/// descriptors.
pub open spec fn published_list(metas: Seq<ExtraAccountMeta>) -> Seq<u8> {
    EXECUTE_TAG@ + spec_u32_to_le_bytes((EXTRA_ACCOUNT_META_BYTES * metas.len() + 4) as u32)
        + spec_u32_to_le_bytes(metas.len() as u32) + metas_bytes(metas)
}

/// The bytes under which `metas` is published, in storage of exactly the size the
/// list needs. `None` where the list has more than `MAX_LIST_ITEMS` descriptors or
/// its size is beyond what a length can hold.
pub open spec fn meta_list_layout(metas: Seq<ExtraAccountMeta>) -> Option<Seq<u8>> {
    if metas.len() <= MAX_LIST_ITEMS && EXTRA_ACCOUNT_META_BYTES * metas.len()
        + META_LIST_HEADER_BYTES <= usize::MAX {
        Some(published_list(metas))
    } else {
        None
    }
}

/// Calls `spl_tlv_account_resolution::state::ExtraAccountMetaList::size_of`.
///
/// Trusted: the call returns the 12 bytes of a type tag and a length plus the 4
/// bytes of a count plus 35 bytes per item. It fails where the count and the items
/// overflow, and caps the sum where only the first 12 bytes overflow.
#[verifier::external_body]
fn list_size_of(num_items: usize) -> (result: Result<
    usize,
    spl_tlv_account_resolution::solana_program::program_error::ProgramError,
>)
    ensures
        match result {
            Ok(size) => meta_list_size(num_items as nat) == Some(size as nat),
            Err(_) => meta_list_size(num_items as nat) is None,
        },
{
    spl_tlv_account_resolution::state::ExtraAccountMetaList::size_of(num_items)
}

/// Calls `spl_tlv_account_resolution::state::ExtraAccountMetaList::init` with
/// `spl_transfer_hook_interface::instruction::ExecuteInstruction` as the type tag.
///
/// Trusted: on zeroed storage of exactly the list's size, for a list whose length
/// fits the four-byte length field, the call does not panic and succeeds. It keeps
/// the storage's length and leaves the tag of `ExecuteInstruction`, which is
/// `EXECUTE_TAG`, the length `35 n + 4`, the count `n` and the `n` items, each in
/// the order of its fields with a flag as one byte, 0 or 1.
#[verifier::external_body]
fn init_execute_list(data: &mut Vec<u8>, metas: &Vec<ExtraAccountMeta>) -> (result: Result<
    (),
    spl_tlv_account_resolution::solana_program::program_error::ProgramError,
>)
    requires
        old(data)@ == zeroed(old(data)@.len()),
        old(data)@.len() == EXTRA_ACCOUNT_META_BYTES * metas@.len() + META_LIST_HEADER_BYTES,
        metas@.len() <= MAX_LIST_ITEMS,
    ensures
        result is Ok,
        final(data)@.len() == old(data)@.len(),
        final(data)@ == published_list(metas@),
{
    let outside: Vec<spl_tlv_account_resolution::account::ExtraAccountMeta> = metas.iter().map(
        |m| spl_tlv_account_resolution::account::ExtraAccountMeta {
            discriminator: m.discriminator,
            address_config: m.address_config,
            is_signer: m.is_signer.into(),
            is_writable: m.is_writable.into(),
        },
    ).collect();
    spl_tlv_account_resolution::state::ExtraAccountMetaList::init::<
        spl_transfer_hook_interface::instruction::ExecuteInstruction,
    >(data.as_mut_slice(), &outside)
}

/// The extra accounts that the transfer gate needs beyond the engine's fixed ones:
/// none.
pub fn required_extra_account_metas() -> (metas: Vec<ExtraAccountMeta>)
    ensures
        metas@ == Seq::<ExtraAccountMeta>::empty(),
{
    Vec::new()
}

/// The number of bytes to allocate for a list of `num_items` descriptors.
pub fn extra_account_meta_list_size(num_items: usize) -> (size: Option<usize>)
    ensures
        match size {
            Some(s) => meta_list_size(num_items as nat) == Some(s as nat),
            None => meta_list_size(num_items as nat) is None,
        },
{
    match list_size_of(num_items) {
        Ok(size) => Some(size),
        Err(_) => None,
    }
}

/// Lays `metas` out as it is published: sizes the list, takes zeroed storage of
/// exactly that size and writes the list into it.
pub fn lay_out_extra_account_metas(metas: &Vec<ExtraAccountMeta>) -> (data: Option<Vec<u8>>)
    ensures
        match data {
            Some(d) => meta_list_layout(metas@) == Some(d@) && meta_list_size(metas@.len())
                == Some(d@.len()),
            None => meta_list_layout(metas@) is None,
        },
        metas@.len() == 0 ==> data is Some && data->0@.len() == META_LIST_HEADER_BYTES,
{
    let count = metas.len();
    let size = match extra_account_meta_list_size(count) {
        Some(size) => size,
        None => {
            return None;
        },
    };
    if count > MAX_LIST_ITEMS {
        return None;
    }
    let exact: u64 = 35 * (count as u64) + 16;
    if size as u64 != exact {
        return None;
    }
    let mut data: Vec<u8> = vec![0u8; size];
    assert(data@ =~= zeroed(size as nat));
    match init_execute_list(&mut data, metas) {
        Ok(_) => Some(data),
        Err(_) => None,
    }
}

/// The seeds with which the program signs when the runtime allocates the
/// companion-account list of `mint`.
pub fn signer_seeds(mint: &Address, bump: u8) -> (seeds: Vec<Vec<u8>>)
    ensures
        seeds@.len() == 3,
        seeds@[0]@ == EXTRA_ACCOUNT_METAS_SEED@,
        seeds@[1]@ == mint@,
        seeds@[2]@ == seq![bump],
{
    let mut label: Vec<u8> = Vec::new();
    let mut i: usize = 0;
    while i < 19
        invariant
            i <= 19,
            label@.len() == i,
            forall|j: int| 0 <= j < i ==> label@[j] == EXTRA_ACCOUNT_METAS_SEED@[j],
        decreases 19 - i,
    {
        label.push(EXTRA_ACCOUNT_METAS_SEED[i]);
        i += 1;
    }
    assert(label@ =~= EXTRA_ACCOUNT_METAS_SEED@);
    let mut last: Vec<u8> = Vec::new();
    last.push(bump);
    assert(last@ =~= seq![bump]);
    let mut seeds: Vec<Vec<u8>> = Vec::new();
    seeds.push(label);
    seeds.push(mint.to_vec());
    seeds.push(last);
    seeds
}

} // verus!

//! A compliance registry for tokenized real-world assets, and the transfer gate that
//! every transfer of such a token has to pass.

pub mod address;
pub mod error;
pub mod instruction;
pub mod laws;
pub mod ledger;
pub mod meta_list;
pub mod program;
pub mod record;
mod table;

pub use address::{Address, Authority};
pub use error::RwaError;
pub use instruction::HookInstruction;
pub use ledger::{Ledger, MetaListAccount};
pub use meta_list::ExtraAccountMeta;
pub use program::{
    fallback, initialize, initialize_asset, initialize_extra_account_meta_list, transfer_hook,
    update_asset_details, Initialize, InitializeAsset, InitializeExtraAccountMetaList,
    TransferHook, UpdateAssetDetails,
};
pub use record::{AssetDetails, ASSET_DETAILS_SPACE};

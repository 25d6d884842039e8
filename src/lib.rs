//! An on-chain minting program for single-edition items, modelled as
//! transitions of a ledger: `initialize` creates the program's derived
//! signing authority once, and `mint_nft` creates a mint of supply one, the
//! payer's token account and a metadata record, and broadcasts an event, all
//! or nothing.
pub mod address;
pub mod state;
pub mod instructions;
pub mod laws;
pub mod layout;

pub use address::Address;
pub use instructions::{authority_address, IS_MUTABLE, NFT_AMOUNT, check_mint_accounts, initialize, mint_nft, nft_metadata_data, nft_minted_event};
pub use layout::{authority_discriminator_bytes, decode_authority, encode_authority, AUTHORITY_SPACE};
pub use state::{
    Authority, AuthorityAccount, Collection, Creator, DataV2, Initialize, Ledger, MetadataAccount,
    MintAccount, MintNft, NftError, NftMinted, TokenAccount, UseMethod, Uses,
};

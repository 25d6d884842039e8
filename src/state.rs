use vstd::prelude::*;
use crate::address::Address;

verus! {

/// The program's signing authority: the bump under which its address is
/// derived from the authority seed.
#[derive(Clone, Copy, Debug)]
pub struct Authority {
    pub bump: u8,
}

/// The authority record at its derived address.
#[derive(Clone, Copy, Debug)]
pub struct AuthorityAccount {
    pub address: Address,
    pub state: Authority,
}

/// A token mint: its decimals, the supply minted so far and who may mint.
#[derive(Clone, Copy, Debug)]
pub struct MintAccount {
    pub address: Address,
    pub decimals: u8,
    pub supply: u64,
    pub mint_authority: Address,
}

/// A token balance of one owner in one mint.
#[derive(Clone, Copy, Debug)]
pub struct TokenAccount {
    pub address: Address,
    pub mint: Address,
    pub owner: Address,
    pub amount: u64,
}

/// A creator entry of a metadata record; `share` is a percentage.
#[derive(Clone, Copy, Debug)]
pub struct Creator {
    pub address: Address,
    pub verified: bool,
    pub share: u8,
}

/// The collection that an item belongs to.
#[derive(Clone, Copy, Debug)]
pub struct Collection {
    pub verified: bool,
    pub key: Address,
}

/// How the uses of an item are consumed.
#[derive(Clone, Copy, Debug)]
pub enum UseMethod {
    Burn,
    Multiple,
    Single,
}

/// The uses attached to an item.
#[derive(Clone, Copy, Debug)]
pub struct Uses {
    pub use_method: UseMethod,
    pub remaining: u64,
    pub total: u64,
}

/// The descriptive data handed to the metadata program.
#[derive(Clone, Debug)]
pub struct DataV2 {
    pub name: String,
    pub symbol: String,
    pub uri: String,
    pub seller_fee_basis_points: u16,
    pub creators: Option<Vec<Creator>>,
    pub collection: Option<Collection>,
    pub uses: Option<Uses>,
}

/// A metadata record created for a mint.
#[derive(Clone, Debug)]
pub struct MetadataAccount {
    pub address: Address,
    pub mint: Address,
    pub update_authority: Address,
    pub data: DataV2,
    pub is_mutable: bool,
}

/// The notice broadcast after a successful mint.
#[derive(Clone, Debug)]
pub struct NftMinted {
    pub mint: Address,
    pub owner: Address,
    pub name: String,
    pub rarity: String,
}

/// The accounts of the `initialize` instruction, with what the runtime
/// reports of the payer.
#[derive(Clone, Copy, Debug)]
pub struct Initialize {
    /// Where the authority is to be created.
    pub authority: Address,
    pub payer: Address,
    pub payer_is_signer: bool,
    /// The payer's balance.
    pub payer_lamports: u64,
    /// The rent-exempt minimum of the new authority account.
    pub rent_minimum: u64,
}

/// The accounts of the `mint_nft` instruction, with what the runtime
/// reports of the payer.
#[derive(Clone, Copy, Debug)]
pub struct MintNft {
    /// The stored authority, which signs the mint and owns the metadata.
    pub authority: Address,
    /// The mint to be created.
    pub mint: Address,
    /// The payer's associated token account to be created for the mint.
    pub token_account: Address,
    /// The metadata record's address. It is not checked here: the metadata
    /// program derives and checks it itself.
    pub metadata: Address,
    pub payer: Address,
    pub payer_is_signer: bool,
    /// The payer's balance.
    pub payer_lamports: u64,
    /// The rent-exempt minimum of the new mint and token account together.
    pub rent_minimum: u64,
    pub token_program: Address,
    pub associated_token_program: Address,
    /// The metadata program, called as it is.
    pub token_metadata_program: Address,
}

/// The accounts that this program sees and creates, and the events it has
/// broadcast: one state per committed transaction.
#[derive(Clone, Debug)]
pub struct Ledger {
    pub program_id: Address,
    pub token_program_id: Address,
    pub associated_token_program_id: Address,
    pub authority: Option<AuthorityAccount>,
    pub mints: Vec<MintAccount>,
    pub token_accounts: Vec<TokenAccount>,
    pub metadata: Vec<MetadataAccount>,
    pub events: Vec<NftMinted>,
}

/// Why an instruction fails. Every failure leaves the ledger as it was.
#[derive(Clone, Copy, Debug, PartialEq, Eq, Structural)]
pub enum NftError {
    /// The payer did not sign the transaction.
    MissingSigner,
    /// An address is not the one derived from its seeds.
    ConstraintSeeds,
    /// The token account is not the payer's associated account for the mint.
    ConstraintAssociated,
    /// A program account is not the expected program.
    InvalidProgramId,
    /// The authority has not been created.
    AccountNotInitialized,
    /// An account to be created already exists.
    AccountAlreadyInUse,
    /// The payer cannot fund the accounts to be created.
    InsufficientFunds,
    /// Account data is shorter than its discriminator.
    AccountDiscriminatorNotFound,
    /// Account data starts with another type's discriminator.
    AccountDiscriminatorMismatch,
    /// Account data ends before its fields.
    AccountDidNotDeserialize,
    /// The token program refused to mint, with its error code.
    TokenProgramFailed { code: u32 },
    /// The metadata program refused the record, with its error code.
    MetadataProgramFailed { code: u32 },
}

impl Ledger {
    /// A ledger with no authority and no accounts of this program.
    pub fn new(program_id: Address, token_program_id: Address, associated_token_program_id: Address) -> (r: Ledger)
        ensures
            r.program_id@ == program_id@,
            r.token_program_id@ == token_program_id@,
            r.associated_token_program_id@ == associated_token_program_id@,
            r.authority is None,
            r.mints@.len() == 0,
            r.token_accounts@.len() == 0,
            r.metadata@.len() == 0,
            r.events@.len() == 0,
    {
        Ledger {
            program_id,
            token_program_id,
            associated_token_program_id,
            authority: None,
            mints: Vec::new(),
            token_accounts: Vec::new(),
            metadata: Vec::new(),
            events: Vec::new(),
        }
    }
}

} // verus!

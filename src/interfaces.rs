use std::collections::HashMap;
use vstd::prelude::*;

use crate::account::AccountId;

verus! {

/// The registry's side of the exchange: what it answers when asked about a
/// token. `None` means that it knows no such token.
pub trait MintbaseStore {
    fn nft_token(&self, token_id: u64) -> Option<TokenCompliant>;
}

/// A token as the registry describes it.
pub struct TokenCompliant {
    /// The id of this token on its registry; not unique across registries.
    pub token_id: String,
    /// Who or what holds the token.
    pub owner_id: Owner,
    /// Accounts, other than the owner, that may transfer this token.
    pub approved_account_ids: HashMap<AccountId, u64>,
    /// The metadata set when the token was minted.
    pub metadata: TokenMetadataCompliant,
    /// The royalty set when the token was minted.
    pub royalty: Option<Royalty>,
    /// Shares of the ownership split across several accounts.
    pub split_owners: Option<SplitOwners>,
    /// The account that minted this token.
    pub minter: AccountId,
    /// Set while the token is loaned out.
    pub loan: Option<Loan>,
    /// How the token takes part in composition.
    pub composeable_stats: ComposeableStats,
    /// Where the token came from, if it was moved here from another registry.
    pub origin_key: Option<TokenKey>,
}

/// A loan of a token to a loan contract.
pub struct Loan {
    pub holder: AccountId,
    pub loan_contract: AccountId,
}

/// Composition figures of a token.
#[derive(Clone, Copy, Debug, PartialEq, Eq, Structural)]
pub struct ComposeableStats {
    /// How deep the token sits in a chain of composition on its own registry.
    pub local_depth: u8,
    /// How many children on other registries the token has, direct and indirect.
    pub cross_contract_children: u8,
}

/// Who holds a token. Exactly one of these holds at any one observation.
pub enum Owner {
    /// Held directly by an account.
    Account(AccountId),
    /// Held by another token on the same registry.
    TokenId(u64),
    /// Held by a token on another registry.
    CrossKey(TokenKey),
    /// Frozen until some other process completes; the account holds the lock.
    Lock(AccountId),
}

/// A token on a given registry.
#[derive(Debug, PartialEq, Eq)]
pub struct TokenKey {
    pub token_id: u64,
    pub account_id: String,
}

/// Descriptive metadata of a token.
pub struct TokenMetadataCompliant {
    pub title: Option<String>,
    pub description: Option<String>,
    pub media: Option<String>,
    /// Digest of the content that `media` refers to.
    pub media_hash: Option<Vec<u8>>,
    pub copies: Option<u16>,
    pub issued_at: Option<String>,
    pub expires_at: Option<String>,
    pub starts_at: Option<String>,
    pub updated_at: Option<String>,
    pub extra: Option<String>,
    pub reference: Option<String>,
    /// Digest of the document that `reference` refers to.
    pub reference_hash: Option<Vec<u8>>,
}

/// A royalty: an overall share and how it is split between accounts.
pub struct Royalty {
    pub split_between: HashMap<AccountId, SafeFraction>,
    pub percentage: SafeFraction,
}

/// Shares of ownership split between accounts.
pub struct SplitOwners {
    pub split_between: HashMap<AccountId, SafeFraction>,
}

/// A fraction stored by its numerator.
#[derive(Clone, Copy, Debug, PartialEq, Eq, Structural)]
pub struct SafeFraction {
    pub numerator: u32,
}

} // verus!

//! The sale state record: the durable entity describing one sale.

use vstd::prelude::*;

use crate::address::Address;

verus! {

/// One sale's parameters and accounting, keyed by the pair of sale-token
/// identity and sale name.
///
/// The record is created once by the initialization controller and mutated
/// only by the purchase executor, which raises `total_raised`; no other field
/// ever changes after creation.
pub struct LaunchpadState {
    /// The account that initiated the sale (informational).
    pub creator: Address,
    /// The human-chosen name, as UTF-8 bytes; part of the record's
    /// derivation key, so names are unique per sale token.
    pub launchpad_name: Vec<u8>,
    /// The account granted mint and vault authority at creation time.
    pub admin: Address,
    /// Cumulative reference-token units collected; never decreases.
    pub total_raised: u64,
    /// Gate flag: purchases are rejected while this is false.
    pub is_active: bool,
    /// Derivation nonce of the record's own address.
    pub bump: u8,
    /// Reference-token units required per sale-token unit.
    pub token_price: u64,
    /// Opaque metadata tag, not used in the logic.
    pub token_story_id: u64,
    /// Derivation nonce of the sale-token mint's address.
    pub token_bump: u8,
    /// The identity of the sale token.
    pub token_mint: Address,
    /// Derivation nonce of the sale vault's address.
    pub token_vault_bump: u8,
    /// The sale vault's address, recorded as the vault authority handle.
    pub token_vault_authority: Address,
    /// Derivation nonce paired with `token_vault_authority`.
    pub token_vault_authority_bump: u8,
}

impl LaunchpadState {
    /// Everything about the record except its accounting counter: the
    /// parameters fixed at creation, which no operation may change.
    pub open spec fn same_config(self, other: LaunchpadState) -> bool {
        &&& self.creator == other.creator
        &&& self.launchpad_name == other.launchpad_name
        &&& self.admin == other.admin
        &&& self.is_active == other.is_active
        &&& self.bump == other.bump
        &&& self.token_price == other.token_price
        &&& self.token_story_id == other.token_story_id
        &&& self.token_bump == other.token_bump
        &&& self.token_mint == other.token_mint
        &&& self.token_vault_bump == other.token_vault_bump
        &&& self.token_vault_authority == other.token_vault_authority
        &&& self.token_vault_authority_bump == other.token_vault_authority_bump
    }
}

} // verus!

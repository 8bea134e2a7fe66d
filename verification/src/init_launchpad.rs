//! The initialization controller: creates a sale state record and seeds the
//! sale vault with the full token supply.

use vstd::prelude::*;

use crate::address::Address;
use crate::errors::ErrorCode;
use crate::launchpad::LaunchpadState;
use crate::token::{mint_to, TokenAccount};

verus! {

/// The derivation nonces captured while the host created the accounts; the
/// record stores them so later calls can reconstruct each authority proof
/// without searching for the nonce again.
pub struct InitLaunchpadBumps {
    /// Nonce of the sale-token mint's address.
    pub maker_token: u8,
    /// Nonce of the payment-token mint's address.
    pub nex_token: u8,
    /// Nonce of the sale state record's address.
    pub launchpad_state: u8,
    /// Nonce of the sale vault's address.
    pub vault: u8,
    /// Nonce of the payment vault's address.
    pub vault_nex: u8,
}

/// The accounts one initialization touches: the fresh state record, the two
/// vaults, and the identities that tie them together.
pub struct InitLaunchpad {
    /// The caller creating the sale; recorded as its creator.
    pub signer: Address,
    /// The account granted mint and vault authority; recorded as admin.
    pub launchpad_owner: Address,
    /// The identity of the sale token.
    pub maker_token: Address,
    /// The identity of the reference payment token.
    pub nex_token: Address,
    /// The sale's durable state record, about to be written.
    pub launchpad_state: LaunchpadState,
    /// The vault that will hold the sale-token supply.
    pub vault: TokenAccount,
    /// The vault that will collect the payment tokens raised.
    pub vault_nex: TokenAccount,
}

impl InitLaunchpad {
    /// The account constraints the host checks before the controller runs:
    /// each vault holds the token the protocol expects there.
    pub open spec fn accounts_ok(self) -> bool {
        &&& self.vault.mint@ == self.maker_token@
        &&& self.vault_nex.mint@ == self.nex_token@
    }

    /// Creates the sale: mints `total_supply` sale tokens into the vault and
    /// writes a fresh state record with `total_raised = 0`, `is_active =
    /// true`, and the captured derivation nonces.
    ///
    /// A mint's total supply is capped at `u64::MAX`, which bounds the
    /// vault's balance after the mint; within that cap the call always
    /// succeeds.
    pub fn init_launchpad(
        &mut self,
        launchpad_name: Vec<u8>,
        token_price: u64,
        token_story_id: u64,
        total_supply: u64,
        bump: &InitLaunchpadBumps,
    ) -> (r: Result<(), ErrorCode>)
        requires
            old(self).vault.amount + total_supply <= u64::MAX,
        ensures
            r is Ok,
            final(self).launchpad_state.creator@ == old(self).signer@,
            final(self).launchpad_state.launchpad_name@ == launchpad_name@,
            final(self).launchpad_state.admin@ == old(self).launchpad_owner@,
            final(self).launchpad_state.total_raised == 0,
            final(self).launchpad_state.is_active,
            final(self).launchpad_state.bump == bump.launchpad_state,
            final(self).launchpad_state.token_price == token_price,
            final(self).launchpad_state.token_story_id == token_story_id,
            final(self).launchpad_state.token_bump == bump.maker_token,
            final(self).launchpad_state.token_mint@ == old(self).maker_token@,
            final(self).launchpad_state.token_vault_bump == bump.vault,
            final(self).launchpad_state.token_vault_authority@ == old(self).vault.addr@,
            final(self).launchpad_state.token_vault_authority_bump == bump.vault,
            final(self).vault.amount == old(self).vault.amount + total_supply,
            final(self).vault.same_identity(old(self).vault),
            final(self).vault_nex == old(self).vault_nex,
            final(self).signer == old(self).signer,
            final(self).launchpad_owner == old(self).launchpad_owner,
            final(self).maker_token == old(self).maker_token,
            final(self).nex_token == old(self).nex_token,
    {
        mint_to(&mut self.vault, total_supply);

        self.launchpad_state = LaunchpadState {
            creator: self.signer.dup(),
            launchpad_name,
            admin: self.launchpad_owner.dup(),
            total_raised: 0,
            token_bump: bump.maker_token,
            is_active: true,
            bump: bump.launchpad_state,
            token_price,
            token_story_id,
            token_mint: self.maker_token.dup(),
            token_vault_bump: bump.vault,
            token_vault_authority: self.vault.addr.dup(),
            token_vault_authority_bump: bump.vault,
        };

        Ok(())
    }
}

} // verus!

//! The purchase executor: validates and performs one buyer's exchange
//! against the sale vault.

use vstd::prelude::*;

use crate::address::{address_eq, bytes_eq, Address};
use crate::errors::ErrorCode;
use crate::launchpad::LaunchpadState;
use crate::token::{transfer, TokenAccount};

verus! {

/// The accounts one purchase touches: the sale state record, the two vaults,
/// the buyer's two balance accounts, and the identities that tie them
/// together.
pub struct BuyToken {
    /// The purchaser; authorizes the payment-token debit.
    pub buyer: Address,
    /// The keyless authority that controls both vaults.
    pub signer: Address,
    /// The account that administers the sale token.
    pub launchpad_owner: Address,
    /// The sale's durable state record.
    pub launchpad_state: LaunchpadState,
    /// The vault holding the remaining sale-token supply.
    pub token_vault: TokenAccount,
    /// The identity of the sale token.
    pub maker_token: Address,
    /// The buyer's sale-token balance account.
    pub buyer_token_account: TokenAccount,
    /// The identity of the reference payment token.
    pub nex_token: Address,
    /// The vault collecting the payment tokens raised.
    pub vault_nex: TokenAccount,
    /// The buyer's payment-token balance account.
    pub buyer_nex_token_account: TokenAccount,
}

/// The reference-token cost of `amount_to_buy` sale tokens at `token_price`
/// each, or nothing when the product exceeds the integer range.
pub fn purchase_cost(token_price: u64, amount_to_buy: u64) -> (r: Option<u64>)
    ensures
        token_price * amount_to_buy > u64::MAX ==> r is None,
        token_price * amount_to_buy <= u64::MAX ==> r == Some(
            (token_price * amount_to_buy) as u64,
        ),
{
    token_price.checked_mul(amount_to_buy)
}

impl BuyToken {
    /// The account constraints the host checks before the executor runs:
    /// every vault and balance account holds the token the record names, and
    /// each account's authority is the party the protocol expects. A
    /// mismatch is a hard precondition failure, rejected before any logic.
    pub open spec fn accounts_ok(self) -> bool {
        &&& self.launchpad_state.token_mint@ == self.maker_token@
        &&& self.token_vault.mint@ == self.maker_token@
        &&& self.token_vault.owner@ == self.signer@
        &&& self.buyer_token_account.mint@ == self.maker_token@
        &&& self.buyer_token_account.owner@ == self.buyer@
        &&& self.vault_nex.mint@ == self.nex_token@
        &&& self.vault_nex.owner@ == self.signer@
        &&& self.buyer_nex_token_account.mint@ == self.nex_token@
        &&& self.buyer_nex_token_account.owner@ == self.buyer@
    }

    /// All balances of one mint sum to its total supply, a `u64`; so the two
    /// balances the purchase moves between can never sum past `u64::MAX`.
    pub open spec fn balances_bounded(self) -> bool {
        &&& self.token_vault.amount + self.buyer_token_account.amount <= u64::MAX
        &&& self.vault_nex.amount + self.buyer_nex_token_account.amount <= u64::MAX
    }

    /// Which result a purchase of `amount_to_buy` is owed from the pre-state
    /// `pre`: an inactive sale is rejected outright; a cost product or a
    /// raised-total sum beyond `u64::MAX` reports overflow; a buyer balance
    /// below the cost, or a vault below the requested amount, reports
    /// insufficient tokens; otherwise the purchase succeeds.
    pub open spec fn buy_outcome(pre: BuyToken, amount_to_buy: u64) -> Result<(), ErrorCode> {
        let cost = pre.launchpad_state.token_price * amount_to_buy;
        if !pre.launchpad_state.is_active {
            Err(ErrorCode::LaunchpadNotActive)
        } else if cost > u64::MAX {
            Err(ErrorCode::MathOverflow)
        } else if pre.buyer_nex_token_account.amount < cost {
            Err(ErrorCode::InsufficientTokens)
        } else if pre.token_vault.amount < amount_to_buy {
            Err(ErrorCode::InsufficientTokens)
        } else if pre.launchpad_state.total_raised + cost > u64::MAX {
            Err(ErrorCode::MathOverflow)
        } else {
            Ok(())
        }
    }

    /// The post-state a successful purchase is owed: `amount_to_buy` sale
    /// tokens move from the vault to the buyer, the cost in payment tokens
    /// moves from the buyer to the payment vault, the raised total grows by
    /// that cost, and nothing else changes.
    pub open spec fn buy_updates(pre: BuyToken, post: BuyToken, amount_to_buy: u64) -> bool {
        let cost = pre.launchpad_state.token_price * amount_to_buy;
        &&& post.token_vault.amount == pre.token_vault.amount - amount_to_buy
        &&& post.buyer_token_account.amount == pre.buyer_token_account.amount + amount_to_buy
        &&& post.buyer_nex_token_account.amount == pre.buyer_nex_token_account.amount - cost
        &&& post.vault_nex.amount == pre.vault_nex.amount + cost
        &&& post.launchpad_state.total_raised == pre.launchpad_state.total_raised + cost
        &&& post.launchpad_state.same_config(pre.launchpad_state)
        &&& post.token_vault.same_identity(pre.token_vault)
        &&& post.buyer_token_account.same_identity(pre.buyer_token_account)
        &&& post.vault_nex.same_identity(pre.vault_nex)
        &&& post.buyer_nex_token_account.same_identity(pre.buyer_nex_token_account)
        &&& post.buyer == pre.buyer
        &&& post.signer == pre.signer
        &&& post.launchpad_owner == pre.launchpad_owner
        &&& post.maker_token == pre.maker_token
        &&& post.nex_token == pre.nex_token
    }

    /// Checks the host's account constraints and that these accounts belong
    /// to the sale named `launchpad_name`: the record was derived from that
    /// name, so its stored name must match.
    pub fn validate(&self, launchpad_name: &Vec<u8>) -> (r: bool)
        ensures
            r == (self.accounts_ok()
                && self.launchpad_state.launchpad_name@ == launchpad_name@),
    {
        address_eq(&self.launchpad_state.token_mint, &self.maker_token)
            && address_eq(&self.token_vault.mint, &self.maker_token)
            && address_eq(&self.token_vault.owner, &self.signer)
            && address_eq(&self.buyer_token_account.mint, &self.maker_token)
            && address_eq(&self.buyer_token_account.owner, &self.buyer)
            && address_eq(&self.vault_nex.mint, &self.nex_token)
            && address_eq(&self.vault_nex.owner, &self.signer)
            && address_eq(&self.buyer_nex_token_account.mint, &self.nex_token)
            && address_eq(&self.buyer_nex_token_account.owner, &self.buyer)
            && bytes_eq(&self.launchpad_state.launchpad_name, launchpad_name)
    }

    /// Performs one purchase of `amount_to_buy` sale tokens.
    ///
    /// Any failure returns its reason and mutates nothing. On success the
    /// payment leg and the counter-leg both move and the raised total grows
    /// by the cost; the host commits the whole call atomically.
    pub fn buy_tokens(&mut self, launchpad_name: &Vec<u8>, amount_to_buy: u64) -> (r: Result<
        (),
        ErrorCode,
    >)
        requires
            old(self).accounts_ok(),
            old(self).balances_bounded(),
            old(self).launchpad_state.launchpad_name@ == launchpad_name@,
        ensures
            r == BuyToken::buy_outcome(*old(self), amount_to_buy),
            r is Err ==> *final(self) == *old(self),
            r is Ok ==> BuyToken::buy_updates(*old(self), *final(self), amount_to_buy),
            final(self).launchpad_state.total_raised >= old(
                self,
            ).launchpad_state.total_raised,
    {
        if !self.launchpad_state.is_active {
            return Err(ErrorCode::LaunchpadNotActive);
        }

        let nex_tokens_required = match self.launchpad_state.token_price.checked_mul(
            amount_to_buy,
        ) {
            Some(cost) => cost,
            None => {
                return Err(ErrorCode::MathOverflow);
            },
        };

        if self.buyer_nex_token_account.amount < nex_tokens_required {
            return Err(ErrorCode::InsufficientTokens);
        }

        if self.token_vault.amount < amount_to_buy {
            return Err(ErrorCode::InsufficientTokens);
        }

        let new_total_raised = match self.launchpad_state.total_raised.checked_add(
            nex_tokens_required,
        ) {
            Some(total) => total,
            None => {
                return Err(ErrorCode::MathOverflow);
            },
        };

        transfer(&mut self.buyer_nex_token_account, &mut self.vault_nex, nex_tokens_required);
        transfer(&mut self.token_vault, &mut self.buyer_token_account, amount_to_buy);
        self.launchpad_state.total_raised = new_total_raised;

        Ok(())
    }
}

/// An inactive sale rejects every purchase, whatever the amount; by
/// `buy_tokens`'s contract a rejected purchase changes nothing.
pub proof fn lemma_inactive_sale_rejects_all(pre: BuyToken, amount_to_buy: u64)
    requires
        !pre.launchpad_state.is_active,
    ensures
        BuyToken::buy_outcome(pre, amount_to_buy) == Err::<(), ErrorCode>(
            ErrorCode::LaunchpadNotActive,
        ),
{
}

/// On an active sale, a cost product beyond the integer range is always
/// rejected as overflow, whatever the balances; by `buy_tokens`'s contract a
/// rejected purchase changes nothing.
pub proof fn lemma_overflowing_cost_is_rejected(pre: BuyToken, amount_to_buy: u64)
    requires
        pre.launchpad_state.is_active,
        pre.launchpad_state.token_price * amount_to_buy > u64::MAX,
    ensures
        BuyToken::buy_outcome(pre, amount_to_buy) == Err::<(), ErrorCode>(
            ErrorCode::MathOverflow,
        ),
{
}

/// On an active sale with an in-range cost, a buyer who cannot pay the cost,
/// or a vault that cannot cover the amount, is always rejected for
/// insufficient tokens; by `buy_tokens`'s contract a rejected purchase
/// changes nothing.
pub proof fn lemma_short_balance_is_rejected(pre: BuyToken, amount_to_buy: u64)
    requires
        pre.launchpad_state.is_active,
        pre.launchpad_state.token_price * amount_to_buy <= u64::MAX,
        pre.buyer_nex_token_account.amount < pre.launchpad_state.token_price * amount_to_buy
            || pre.token_vault.amount < amount_to_buy,
    ensures
        BuyToken::buy_outcome(pre, amount_to_buy) == Err::<(), ErrorCode>(
            ErrorCode::InsufficientTokens,
        ),
{
}

} // verus!

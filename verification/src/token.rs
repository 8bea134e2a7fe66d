//! The vault and buyer balance accounts, and the balance moves the token
//! transfer service performs on them.
//!
//! A token account holds a running balance of one token type at one ledger
//! address, controlled by a single authority. The transfer service itself is
//! an external collaborator; the host environment commits each engine call
//! atomically, so its effect on the balances is modeled here directly and the
//! engine is verified against that effect. The engine checks every source
//! balance before it moves funds, so the service's own failure modes never
//! fire on the calls made here; the preconditions below record exactly that.

use vstd::prelude::*;

use crate::address::Address;

verus! {

/// A balance-holding ledger account for one token type.
pub struct TokenAccount {
    /// The address this account sits at.
    pub addr: Address,
    /// The identity of the token this account holds.
    pub mint: Address,
    /// The authority allowed to move funds out of this account.
    pub owner: Address,
    /// The current balance.
    pub amount: u64,
}

impl TokenAccount {
    /// Everything about the account except its balance.
    pub open spec fn same_identity(self, other: TokenAccount) -> bool {
        &&& self.addr == other.addr
        &&& self.mint == other.mint
        &&& self.owner == other.owner
    }
}

/// Moves `amount` units from `from` to `to`.
///
/// The caller has already checked the source balance, and the two balances of
/// one mint never sum past `u64::MAX`, so neither side's arithmetic can fail.
pub fn transfer(from: &mut TokenAccount, to: &mut TokenAccount, amount: u64)
    requires
        old(from).amount >= amount,
        old(to).amount + amount <= u64::MAX,
    ensures
        final(from).amount == old(from).amount - amount,
        final(to).amount == old(to).amount + amount,
        final(from).same_identity(*old(from)),
        final(to).same_identity(*old(to)),
{
    from.amount = from.amount - amount;
    to.amount = to.amount + amount;
}

/// Creates `amount` fresh units of `to`'s token in `to`.
///
/// A mint's total supply is capped at `u64::MAX`, so the sum below fits.
pub fn mint_to(to: &mut TokenAccount, amount: u64)
    requires
        old(to).amount + amount <= u64::MAX,
    ensures
        final(to).amount == old(to).amount + amount,
        final(to).same_identity(*old(to)),
{
    to.amount = to.amount + amount;
}

} // verus!

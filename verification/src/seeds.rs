//! The derived authority resolver: seed lists and keyless address
//! derivation.
//!
//! Every program-controlled account sits at an address derived from an
//! ordered list of seed byte-strings plus a searched nonce ("bump"), so that
//! no private key for it exists and only a party holding the exact seeds and
//! nonce can sign for it. The seed conventions — which byte-strings name the
//! state record, the sale vault, the payment vault and the two mints — are
//! the engine's own logic and are built and proved here. The derivation
//! itself is the host ledger's hash-based primitive, reached through one
//! trusted wrapper.

use vstd::prelude::*;

use crate::address::{copy_bytes, Address};

verus! {

/// The bytes of the fixed tag `"launchpad_state"`.
pub open spec fn state_tag() -> Seq<u8> {
    seq![108u8, 97, 117, 110, 99, 104, 112, 97, 100, 95, 115, 116, 97, 116, 101]
}

/// The bytes of the fixed tag `"vault_nex"`.
pub open spec fn vault_nex_tag() -> Seq<u8> {
    seq![118u8, 97, 117, 108, 116, 95, 110, 101, 120]
}

/// The bytes of the fixed tag `"nex_token"`.
pub open spec fn nex_token_tag() -> Seq<u8> {
    seq![110u8, 101, 120, 95, 116, 111, 107, 101, 110]
}

/// The seed list addressing a sale's state record: the sale-token identity,
/// the sale name, and the record tag.
pub open spec fn state_seeds(token_mint: Seq<u8>, name: Seq<u8>) -> Seq<Seq<u8>> {
    seq![token_mint, name, state_tag()]
}

/// The seed list addressing a sale's vault: the sale-token identity and the
/// sale name.
pub open spec fn vault_seeds(token_mint: Seq<u8>, name: Seq<u8>) -> Seq<Seq<u8>> {
    seq![token_mint, name]
}

/// The seed list addressing a sale's payment vault: the sale name and the
/// payment-vault tag.
pub open spec fn payment_vault_seeds(name: Seq<u8>) -> Seq<Seq<u8>> {
    seq![name, vault_nex_tag()]
}

/// The seed list addressing a sale token's mint: the admin's identity and
/// the sale name.
pub open spec fn mint_seeds(owner: Seq<u8>, name: Seq<u8>) -> Seq<Seq<u8>> {
    seq![owner, name]
}

/// The seed list addressing the payment token's mint: the fixed tag alone.
pub open spec fn nex_mint_seeds() -> Seq<Seq<u8>> {
    seq![nex_token_tag()]
}

/// What the host's address derivation returns for a seed list and a program
/// identity: either a derived 32-byte address with the bump nonce that
/// produced it, or nothing when no nonce in range yields a keyless address.
/// The result depends on the seeds and the program identity alone.
pub uninterp spec fn derived_address(seeds: Seq<Seq<u8>>, program_id: Seq<u8>) -> Option<
    (Seq<u8>, u8),
>;

/// Relies on `Pubkey::try_find_program_address` (anchor_lang's re-exported
/// solana address type): a deterministic SHA-256-based derivation from the
/// seed list and program identity, scanning bump nonces downward from the
/// fixed upper bound until one yields an off-curve (keyless) address, and
/// returning `None` when none does. Every address it returns is 32 bytes.
#[verifier::external_body]
fn find_derived_address(seeds: &Vec<Vec<u8>>, program_id: &Address) -> (r: Option<(Address, u8)>)
    requires
        program_id.wf(),
    ensures
        match r {
            Some(ab) => {
                &&& derived_address(seeds.deep_view(), program_id@) == Some((ab.0@, ab.1))
                &&& ab.0.wf()
            },
            None => derived_address(seeds.deep_view(), program_id@) is None,
        },
{
    let seed_refs: Vec<&[u8]> = seeds.iter().map(|s| s.as_slice()).collect();
    let mut pid = [0u8; 32];
    pid.copy_from_slice(program_id.bytes.as_slice());
    let pid = anchor_lang::solana_program::pubkey::Pubkey::new_from_array(pid);
    anchor_lang::solana_program::pubkey::Pubkey::try_find_program_address(&seed_refs, &pid).map(
        |(key, bump)| (Address { bytes: key.to_bytes().to_vec() }, bump),
    )
}

/// Builds the bytes of `"launchpad_state"`.
fn state_tag_bytes() -> (r: Vec<u8>)
    ensures
        r@ == state_tag(),
{
    let mut tag: Vec<u8> = Vec::new();
    tag.push(108);
    tag.push(97);
    tag.push(117);
    tag.push(110);
    tag.push(99);
    tag.push(104);
    tag.push(112);
    tag.push(97);
    tag.push(100);
    tag.push(95);
    tag.push(115);
    tag.push(116);
    tag.push(97);
    tag.push(116);
    tag.push(101);
    assert(tag@ =~= state_tag());
    tag
}

/// Builds the bytes of `"vault_nex"`.
fn vault_nex_tag_bytes() -> (r: Vec<u8>)
    ensures
        r@ == vault_nex_tag(),
{
    let mut tag: Vec<u8> = Vec::new();
    tag.push(118);
    tag.push(97);
    tag.push(117);
    tag.push(108);
    tag.push(116);
    tag.push(95);
    tag.push(110);
    tag.push(101);
    tag.push(120);
    assert(tag@ =~= vault_nex_tag());
    tag
}

/// Builds the bytes of `"nex_token"`.
fn nex_token_tag_bytes() -> (r: Vec<u8>)
    ensures
        r@ == nex_token_tag(),
{
    let mut tag: Vec<u8> = Vec::new();
    tag.push(110);
    tag.push(101);
    tag.push(120);
    tag.push(95);
    tag.push(116);
    tag.push(111);
    tag.push(107);
    tag.push(101);
    tag.push(110);
    assert(tag@ =~= nex_token_tag());
    tag
}

/// Builds the state record's seed list for one sale.
pub fn build_state_seeds(token_mint: &Address, name: &Vec<u8>) -> (r: Vec<Vec<u8>>)
    ensures
        r.deep_view() == state_seeds(token_mint@, name@),
{
    let mut out: Vec<Vec<u8>> = Vec::new();
    out.push(copy_bytes(&token_mint.bytes));
    out.push(copy_bytes(name));
    out.push(state_tag_bytes());
    proof {
        assert(out.deep_view() =~~= state_seeds(token_mint@, name@));
    }
    out
}

/// Builds the sale vault's seed list for one sale.
pub fn build_vault_seeds(token_mint: &Address, name: &Vec<u8>) -> (r: Vec<Vec<u8>>)
    ensures
        r.deep_view() == vault_seeds(token_mint@, name@),
{
    let mut out: Vec<Vec<u8>> = Vec::new();
    out.push(copy_bytes(&token_mint.bytes));
    out.push(copy_bytes(name));
    proof {
        assert(out.deep_view() =~~= vault_seeds(token_mint@, name@));
    }
    out
}

/// Builds the payment vault's seed list for one sale.
pub fn build_payment_vault_seeds(name: &Vec<u8>) -> (r: Vec<Vec<u8>>)
    ensures
        r.deep_view() == payment_vault_seeds(name@),
{
    let mut out: Vec<Vec<u8>> = Vec::new();
    out.push(copy_bytes(name));
    out.push(vault_nex_tag_bytes());
    proof {
        assert(out.deep_view() =~~= payment_vault_seeds(name@));
    }
    out
}

/// Builds the sale-token mint's seed list for one sale.
pub fn build_mint_seeds(owner: &Address, name: &Vec<u8>) -> (r: Vec<Vec<u8>>)
    ensures
        r.deep_view() == mint_seeds(owner@, name@),
{
    let mut out: Vec<Vec<u8>> = Vec::new();
    out.push(copy_bytes(&owner.bytes));
    out.push(copy_bytes(name));
    proof {
        assert(out.deep_view() =~~= mint_seeds(owner@, name@));
    }
    out
}

/// Builds the payment-token mint's seed list.
pub fn build_nex_mint_seeds() -> (r: Vec<Vec<u8>>)
    ensures
        r.deep_view() == nex_mint_seeds(),
{
    let mut out: Vec<Vec<u8>> = Vec::new();
    out.push(nex_token_tag_bytes());
    proof {
        assert(out.deep_view() =~~= nex_mint_seeds());
    }
    out
}

/// Builds the signing seed list that authorizes the sale vault's debit: the
/// state record's seeds with the record's stored bump nonce appended.
pub fn build_state_signer_seeds(token_mint: &Address, name: &Vec<u8>, bump: u8) -> (r: Vec<
    Vec<u8>,
>)
    ensures
        r.deep_view() == state_seeds(token_mint@, name@).push(seq![bump]),
{
    let mut out = build_state_seeds(token_mint, name);
    let mut bump_seed: Vec<u8> = Vec::new();
    bump_seed.push(bump);
    out.push(bump_seed);
    proof {
        assert(out.deep_view() =~~= state_seeds(token_mint@, name@).push(seq![bump]));
    }
    out
}

/// Derives a sale's state record address from the sale-token identity and
/// the sale name, under the given program identity.
pub fn derive_state_address(token_mint: &Address, name: &Vec<u8>, program_id: &Address) -> (r:
    Option<(Address, u8)>)
    requires
        program_id.wf(),
    ensures
        match r {
            Some(ab) => {
                &&& derived_address(state_seeds(token_mint@, name@), program_id@) == Some(
                    (ab.0@, ab.1),
                )
                &&& ab.0.wf()
            },
            None => derived_address(state_seeds(token_mint@, name@), program_id@) is None,
        },
{
    let seed_list = build_state_seeds(token_mint, name);
    find_derived_address(&seed_list, program_id)
}

/// Derives a sale's vault address from the sale-token identity and the sale
/// name, under the given program identity.
pub fn derive_vault_address(token_mint: &Address, name: &Vec<u8>, program_id: &Address) -> (r:
    Option<(Address, u8)>)
    requires
        program_id.wf(),
    ensures
        match r {
            Some(ab) => {
                &&& derived_address(vault_seeds(token_mint@, name@), program_id@) == Some(
                    (ab.0@, ab.1),
                )
                &&& ab.0.wf()
            },
            None => derived_address(vault_seeds(token_mint@, name@), program_id@) is None,
        },
{
    let seed_list = build_vault_seeds(token_mint, name);
    find_derived_address(&seed_list, program_id)
}

/// Derives a sale's payment vault address from the sale name, under the
/// given program identity.
pub fn derive_payment_vault_address(name: &Vec<u8>, program_id: &Address) -> (r: Option<
    (Address, u8),
>)
    requires
        program_id.wf(),
    ensures
        match r {
            Some(ab) => {
                &&& derived_address(payment_vault_seeds(name@), program_id@) == Some(
                    (ab.0@, ab.1),
                )
                &&& ab.0.wf()
            },
            None => derived_address(payment_vault_seeds(name@), program_id@) is None,
        },
{
    let seed_list = build_payment_vault_seeds(name);
    find_derived_address(&seed_list, program_id)
}

/// Derives a sale token's mint address from the admin's identity and the
/// sale name, under the given program identity.
pub fn derive_mint_address(owner: &Address, name: &Vec<u8>, program_id: &Address) -> (r: Option<
    (Address, u8),
>)
    requires
        program_id.wf(),
    ensures
        match r {
            Some(ab) => {
                &&& derived_address(mint_seeds(owner@, name@), program_id@) == Some((ab.0@, ab.1))
                &&& ab.0.wf()
            },
            None => derived_address(mint_seeds(owner@, name@), program_id@) is None,
        },
{
    let seed_list = build_mint_seeds(owner, name);
    find_derived_address(&seed_list, program_id)
}

/// Two sales with distinct names under the same sale token draw their
/// record, vault and payment-vault addresses from distinct seed lists, so
/// the derivations never read the same input and neither party can address
/// the other's records.
pub proof fn lemma_distinct_names_distinct_seeds(token_mint: Seq<u8>, n1: Seq<u8>, n2: Seq<u8>)
    requires
        n1 != n2,
    ensures
        state_seeds(token_mint, n1) != state_seeds(token_mint, n2),
        vault_seeds(token_mint, n1) != vault_seeds(token_mint, n2),
        payment_vault_seeds(n1) != payment_vault_seeds(n2),
{
    assert(state_seeds(token_mint, n1)[1] == n1);
    assert(state_seeds(token_mint, n2)[1] == n2);
    assert(vault_seeds(token_mint, n1)[1] == n1);
    assert(vault_seeds(token_mint, n2)[1] == n2);
    assert(payment_vault_seeds(n1)[0] == n1);
    assert(payment_vault_seeds(n2)[0] == n2);
}

} // verus!

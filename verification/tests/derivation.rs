use launchpad::address::Address;
use launchpad::seeds::{
    build_mint_seeds, build_nex_mint_seeds, build_payment_vault_seeds, build_state_seeds,
    build_state_signer_seeds, build_vault_seeds, derive_mint_address,
    derive_payment_vault_address, derive_state_address, derive_vault_address,
};

fn addr(tag: u8) -> Address {
    Address::from_bytes(vec![tag; 32])
}

#[test]
fn seed_lists_follow_the_addressing_convention() {
    let mint = addr(10);
    let owner = addr(2);
    let name = b"sale_one".to_vec();

    let state = build_state_seeds(&mint, &name);
    assert_eq!(state.len(), 3);
    assert_eq!(state[0], vec![10u8; 32]);
    assert_eq!(state[1], b"sale_one".to_vec());
    assert_eq!(state[2], b"launchpad_state".to_vec());

    let vault = build_vault_seeds(&mint, &name);
    assert_eq!(vault, vec![vec![10u8; 32], b"sale_one".to_vec()]);

    let payment = build_payment_vault_seeds(&name);
    assert_eq!(payment, vec![b"sale_one".to_vec(), b"vault_nex".to_vec()]);

    let token_mint = build_mint_seeds(&owner, &name);
    assert_eq!(token_mint, vec![vec![2u8; 32], b"sale_one".to_vec()]);

    let nex_mint = build_nex_mint_seeds();
    assert_eq!(nex_mint, vec![b"nex_token".to_vec()]);
}

#[test]
fn signer_seeds_append_the_stored_bump() {
    let mint = addr(10);
    let name = b"sale_one".to_vec();
    let signer = build_state_signer_seeds(&mint, &name, 250);
    let mut expected = build_state_seeds(&mint, &name);
    expected.push(vec![250u8]);
    assert_eq!(signer, expected);
}

#[test]
fn derivation_is_deterministic_and_keyless() {
    let mint = addr(10);
    let name = b"sale_one".to_vec();
    let program_id = addr(42);

    let first = derive_state_address(&mint, &name, &program_id).expect("derivation found a bump");
    let second = derive_state_address(&mint, &name, &program_id).expect("derivation found a bump");
    assert_eq!(first.0.bytes, second.0.bytes);
    assert_eq!(first.1, second.1);

    // The derived address is a genuine hash output, not any input echoed back.
    assert_eq!(first.0.bytes.len(), 32);
    assert_ne!(first.0.bytes, mint.bytes);
    assert_ne!(first.0.bytes, program_id.bytes);
}

#[test]
fn distinct_names_give_distinct_addresses() {
    let mint = addr(10);
    let owner = addr(2);
    let program_id = addr(42);
    let name_one = b"sale_one".to_vec();
    let name_two = b"sale_two".to_vec();

    let record_one = derive_state_address(&mint, &name_one, &program_id).unwrap();
    let record_two = derive_state_address(&mint, &name_two, &program_id).unwrap();
    assert_ne!(record_one.0.bytes, record_two.0.bytes);

    let vault_one = derive_vault_address(&mint, &name_one, &program_id).unwrap();
    let vault_two = derive_vault_address(&mint, &name_two, &program_id).unwrap();
    assert_ne!(vault_one.0.bytes, vault_two.0.bytes);

    let pay_one = derive_payment_vault_address(&name_one, &program_id).unwrap();
    let pay_two = derive_payment_vault_address(&name_two, &program_id).unwrap();
    assert_ne!(pay_one.0.bytes, pay_two.0.bytes);

    let mint_one = derive_mint_address(&owner, &name_one, &program_id).unwrap();
    let mint_two = derive_mint_address(&owner, &name_two, &program_id).unwrap();
    assert_ne!(mint_one.0.bytes, mint_two.0.bytes);
}

#[test]
fn record_vault_and_payment_addresses_do_not_collide() {
    let mint = addr(10);
    let program_id = addr(42);
    let name = b"sale_one".to_vec();

    let record = derive_state_address(&mint, &name, &program_id).unwrap();
    let vault = derive_vault_address(&mint, &name, &program_id).unwrap();
    let payment = derive_payment_vault_address(&name, &program_id).unwrap();
    assert_ne!(record.0.bytes, vault.0.bytes);
    assert_ne!(record.0.bytes, payment.0.bytes);
    assert_ne!(vault.0.bytes, payment.0.bytes);
}

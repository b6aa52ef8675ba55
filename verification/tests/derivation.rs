use anchor_lang::solana_program::pubkey::Pubkey;
use crowdfund::accounts::VaultAuthority;
use crowdfund::address::Address;
use crowdfund::derivation::{
    confirm_derived, is_vault_of, receipt_address, signer_seeds_of_vault, surge_address,
    surge_counter_address, u64_le_bytes, vault_address, Derived,
};

fn key(fill: u8) -> Address {
    Address::new([fill; 32])
}

fn program() -> Address {
    let mut bytes = [0u8; 32];
    for (i, byte) in bytes.iter_mut().enumerate() {
        *byte = (i as u8).wrapping_mul(7).wrapping_add(3);
    }
    Address::new(bytes)
}

#[test]
fn address_keeps_its_bytes() {
    let mut bytes = [0u8; 32];
    bytes[0] = 1;
    bytes[31] = 255;
    let address = Address::new(bytes);
    assert_eq!(address.to_bytes(), bytes);
    assert_eq!(address.to_vec(), bytes.to_vec());
    assert_eq!(Address::zero().to_bytes(), [0u8; 32]);
}

#[test]
fn addresses_compare_by_bytes() {
    let mut other = [9u8; 32];
    assert!(key(9).same(&Address::new(other)));
    assert_eq!(key(9), Address::new(other));
    other[31] = 8;
    assert!(!key(9).same(&Address::new(other)));
    assert_ne!(key(9), Address::new(other));
    other[31] = 9;
    other[0] = 0;
    assert!(!key(9).same(&Address::new(other)));
}

#[test]
fn le_bytes_match_std() {
    for value in [0u64, 1, 255, 256, 0x0102_0304_0506_0708, u64::MAX - 1, u64::MAX] {
        assert_eq!(u64_le_bytes(value), value.to_le_bytes().to_vec());
    }
    assert_eq!(u64_le_bytes(0x0102_0304_0506_0708), vec![8, 7, 6, 5, 4, 3, 2, 1]);
}

#[test]
fn vault_signer_seeds_are_tag_key_bump() {
    let seeds = signer_seeds_of_vault(&key(4), 254);
    assert_eq!(seeds, vec![b"VAULT".to_vec(), vec![4u8; 32], vec![254u8]]);
    let authority = VaultAuthority { vault: key(1), surge_key: key(4), bump: 254 };
    assert_eq!(authority.signer_seeds(), seeds);
}

#[test]
fn vault_address_is_found_as_the_runtime_finds_it() {
    let surge_key = key(17);
    let program_id = program();
    let (expected, bump) = Pubkey::find_program_address(
        &[b"VAULT", &surge_key.to_bytes()],
        &Pubkey::new_from_array(program_id.to_bytes()),
    );
    let found = vault_address(&surge_key, &program_id).unwrap();
    assert_eq!(found.address.to_bytes(), expected.to_bytes());
    assert_eq!(found.bump, bump);
    assert_ne!(found.address, surge_key);
    assert_ne!(found.address, program_id);
}

#[test]
fn vault_address_is_the_same_every_time() {
    let first = vault_address(&key(17), &program());
    let second = vault_address(&key(17), &program());
    assert!(first.is_some());
    assert_eq!(first, second);
    assert_ne!(first, vault_address(&key(18), &program()));
    assert_ne!(first, vault_address(&key(17), &key(2)));
}

#[test]
fn vault_signs_with_its_own_seeds() {
    let surge_key = key(33);
    let program_id = program();
    let found = vault_address(&surge_key, &program_id).unwrap();
    let seeds = signer_seeds_of_vault(&surge_key, found.bump);
    let parts: Vec<&[u8]> = seeds.iter().map(|seed| seed.as_slice()).collect();
    let created = Pubkey::create_program_address(
        &parts,
        &Pubkey::new_from_array(program_id.to_bytes()),
    ).unwrap();
    assert_eq!(created.to_bytes(), found.address.to_bytes());
}

#[test]
fn surge_address_uses_tag_creator_and_number() {
    let creator = key(5);
    let program_id = program();
    let id: u64 = 7;
    let (expected, bump) = Pubkey::find_program_address(
        &[b"SURGE", &creator.to_bytes(), &id.to_le_bytes()],
        &Pubkey::new_from_array(program_id.to_bytes()),
    );
    let found = surge_address(&creator, id, &program_id).unwrap();
    assert_eq!(found.address.to_bytes(), expected.to_bytes());
    assert_eq!(found.bump, bump);
    assert_ne!(Some(found), surge_address(&creator, 8, &program_id));
}

#[test]
fn receipt_address_uses_owner_and_number() {
    let owner = key(6);
    let program_id = program();
    let id: u64 = 300;
    let (expected, bump) = Pubkey::find_program_address(
        &[&owner.to_bytes(), &id.to_le_bytes()],
        &Pubkey::new_from_array(program_id.to_bytes()),
    );
    let found = receipt_address(&owner, id, &program_id).unwrap();
    assert_eq!(found.address.to_bytes(), expected.to_bytes());
    assert_eq!(found.bump, bump);
}

#[test]
fn surge_counter_address_uses_its_tag() {
    let program_id = program();
    let (expected, bump) = Pubkey::find_program_address(
        &[b"SURGE_COUNTER"],
        &Pubkey::new_from_array(program_id.to_bytes()),
    );
    let found = surge_counter_address(&program_id).unwrap();
    assert_eq!(found.address.to_bytes(), expected.to_bytes());
    assert_eq!(found.bump, bump);
}

#[test]
fn derivation_confirms_only_its_own_result() {
    let found = Some(Derived { address: key(1), bump: 250 });
    assert!(confirm_derived(&found, &key(1), 250));
    assert!(!confirm_derived(&found, &key(2), 250));
    assert!(!confirm_derived(&found, &key(1), 251));
    assert!(!confirm_derived(&None, &key(1), 250));
}

#[test]
fn vault_is_recognised_by_deriving_it_again() {
    let surge_key = key(21);
    let program_id = program();
    let found = vault_address(&surge_key, &program_id).unwrap();
    assert!(is_vault_of(&found.address, found.bump, &surge_key, &program_id));
    assert!(!is_vault_of(&found.address, found.bump.wrapping_sub(1), &surge_key, &program_id));
    assert!(!is_vault_of(&key(21), found.bump, &surge_key, &program_id));
    assert!(!is_vault_of(&found.address, found.bump, &key(22), &program_id));
}

use staking_dapp::authority::{create_pool_authority, find_pool_authority, STAKE_POOL_SEED};
use staking_dapp::Pubkey;
use std::str::FromStr;

const PROGRAM: &str = "7dg8dMgyMHuY5zJ94AeRF8BbucZTDeioSJ76eWMRSPWd";

fn program_id() -> Pubkey {
    let id = anchor_lang::prelude::Pubkey::from_str(PROGRAM).unwrap();
    Pubkey::new_from_array(id.to_bytes())
}

fn key(n: u8) -> Pubkey {
    Pubkey::new_from_array([n; 32])
}

fn solana_finds(admin: &Pubkey, program: &Pubkey) -> (Pubkey, u8) {
    let program = anchor_lang::prelude::Pubkey::new_from_array(program.to_bytes());
    let (address, bump) =
        anchor_lang::prelude::Pubkey::find_program_address(&[b"stake_pool", &admin.bytes], &program);
    (Pubkey::new_from_array(address.to_bytes()), bump)
}

#[test]
fn seed_label_spells_stake_pool() {
    assert_eq!(&STAKE_POOL_SEED, b"stake_pool");
}

#[test]
fn program_id_has_the_expected_bytes() {
    assert_eq!(
        program_id().to_bytes(),
        [
            98, 139, 70, 221, 1, 215, 18, 81, 203, 137, 199, 153, 69, 32, 138, 183, 43, 39, 68, 68,
            47, 72, 2, 77, 220, 136, 253, 91, 117, 114, 134, 118
        ]
    );
}

#[test]
fn authority_of_a_known_administrator() {
    let found = find_pool_authority(&key(1), &program_id());
    let expected = Pubkey::new_from_array([
        177, 167, 81, 1, 103, 35, 52, 170, 152, 81, 68, 29, 146, 249, 137, 198, 105, 158, 75, 117,
        197, 29, 220, 92, 146, 9, 241, 255, 177, 25, 111, 183,
    ]);
    assert_eq!(found, Some((expected, 255)));
}

#[test]
fn search_passes_over_bump_seeds_that_derive_nothing() {
    let admin = key(3);
    let program = program_id();
    assert_eq!(create_pool_authority(&admin, 255, &program), None);
    assert_eq!(create_pool_authority(&admin, 254, &program), None);
    assert_eq!(create_pool_authority(&admin, 253, &program), None);
    let expected = Pubkey::new_from_array([
        66, 29, 83, 17, 73, 88, 13, 133, 156, 30, 55, 145, 245, 224, 96, 255, 217, 210, 128, 2, 224,
        189, 101, 131, 106, 86, 224, 215, 78, 207, 118, 196,
    ]);
    assert_eq!(create_pool_authority(&admin, 252, &program), Some(expected));
    assert_eq!(find_pool_authority(&admin, &program), Some((expected, 252)));
}

#[test]
fn search_agrees_with_solana() {
    let program = program_id();
    for n in 0..=60u8 {
        let admin = key(n);
        assert_eq!(find_pool_authority(&admin, &program), Some(solana_finds(&admin, &program)));
    }
}

#[test]
fn stored_bump_seed_derives_the_authority_again() {
    let program = program_id();
    for n in [0u8, 2, 7, 9, 11, 200] {
        let admin = key(n);
        let (authority, bump) = find_pool_authority(&admin, &program).unwrap();
        assert_eq!(create_pool_authority(&admin, bump, &program), Some(authority));
    }
}

#[test]
fn another_bump_seed_derives_another_address() {
    let program = program_id();
    let admin = key(1);
    let (authority, bump) = find_pool_authority(&admin, &program).unwrap();
    assert_eq!(bump, 255);
    for other in 1..255u8 {
        assert_ne!(create_pool_authority(&admin, other, &program), Some(authority));
    }
}

#[test]
fn authority_is_neither_the_administrator_nor_the_program() {
    let program = program_id();
    let admin = key(7);
    let (authority, bump) = find_pool_authority(&admin, &program).unwrap();
    assert_eq!(bump, 254);
    assert_ne!(authority, admin);
    assert_ne!(authority, program);
    assert_eq!(
        authority.to_bytes(),
        [
            240, 127, 242, 229, 30, 63, 142, 60, 147, 100, 11, 9, 64, 33, 163, 65, 21, 185, 216,
            234, 183, 92, 218, 1, 84, 251, 34, 57, 119, 190, 1, 108
        ]
    );
}

#[test]
fn different_administrators_get_different_authorities() {
    let program = program_id();
    let mut seen: Vec<Pubkey> = Vec::new();
    for n in 0..=100u8 {
        let (authority, _) = find_pool_authority(&key(n), &program).unwrap();
        assert!(!seen.contains(&authority));
        seen.push(authority);
    }
}

#[test]
fn authority_depends_on_the_program() {
    let admin = key(1);
    let here = find_pool_authority(&admin, &program_id()).unwrap();
    let there = find_pool_authority(&admin, &key(42)).unwrap();
    assert_ne!(here.0, there.0);
    assert_eq!(there, solana_finds(&admin, &key(42)));
}

#[test]
fn derivation_is_repeatable() {
    let program = program_id();
    let admin = key(9);
    assert_eq!(find_pool_authority(&admin, &program), find_pool_authority(&admin, &program));
    assert_eq!(find_pool_authority(&admin, &program).unwrap().1, 255);
}

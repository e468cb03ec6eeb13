use solana_program::pubkey::Pubkey;
use stake_program::authority::{pool_authority, stake_info_address, vault_authority};

const PROGRAM_ID: [u8; 32] = [7; 32];
const PARTICIPANT: [u8; 32] = [1; 32];

#[test]
fn pool_authority_matches_the_ledger_derivation() {
    let (derived, bump) = pool_authority(&PROGRAM_ID).unwrap();
    let expected = Pubkey::try_find_program_address(
        &[b"stake_pool"],
        &Pubkey::new_from_array(PROGRAM_ID),
    )
    .unwrap();
    assert_eq!(derived, expected.0.to_bytes());
    assert_eq!(bump, expected.1);
    assert_ne!(derived, PROGRAM_ID);
}

#[test]
fn vault_authority_matches_the_ledger_derivation() {
    let (derived, bump) = vault_authority(&PROGRAM_ID, &PARTICIPANT).unwrap();
    let expected = Pubkey::try_find_program_address(
        &[b"token", &PARTICIPANT],
        &Pubkey::new_from_array(PROGRAM_ID),
    )
    .unwrap();
    assert_eq!(derived, expected.0.to_bytes());
    assert_eq!(bump, expected.1);
    assert_ne!(derived, PROGRAM_ID);
    assert_ne!(derived, PARTICIPANT);
}

#[test]
fn stake_info_address_matches_the_ledger_derivation() {
    let (derived, bump) = stake_info_address(&PROGRAM_ID, &PARTICIPANT).unwrap();
    let expected = Pubkey::try_find_program_address(
        &[b"stake_info", &PARTICIPANT],
        &Pubkey::new_from_array(PROGRAM_ID),
    )
    .unwrap();
    assert_eq!(derived, expected.0.to_bytes());
    assert_eq!(bump, expected.1);
}

#[test]
fn derivations_are_deterministic_and_domain_separated() {
    assert_eq!(pool_authority(&PROGRAM_ID), pool_authority(&PROGRAM_ID));
    let vault = vault_authority(&PROGRAM_ID, &PARTICIPANT).unwrap();
    let record = stake_info_address(&PROGRAM_ID, &PARTICIPANT).unwrap();
    // Different domain seeds give different addresses for the same participant.
    assert_ne!(vault.0, record.0);
    // Different participants get different vault authorities.
    let other = vault_authority(&PROGRAM_ID, &[2; 32]).unwrap();
    assert_ne!(vault.0, other.0);
}

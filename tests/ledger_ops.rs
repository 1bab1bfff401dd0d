use anchor_lang::prelude::Pubkey;
use ecobuild::{resolve, Address, ErrorCode, Ledger, MaterialType, PlayerProfile, ProjectPool, PROGRAM_ID};

fn unique() -> Address {
    Address::new(Pubkey::new_unique().to_bytes())
}

fn player_key(ledger: &Ledger, who: &Address) -> Address {
    resolve(&PlayerProfile::seeds(who), &ledger.program_id).unwrap().0
}

fn pool_key(ledger: &Ledger, who: &Address, seed: u64) -> Address {
    resolve(&ProjectPool::seeds(who, seed), &ledger.program_id).unwrap().0
}

fn set_up() -> (Ledger, Address) {
    let mut ledger = Ledger::new(Address::new(PROGRAM_ID));
    let authority = unique();
    ledger.initialize_config(&authority, &unique()).unwrap();
    (ledger, authority)
}

#[test]
fn player_is_created_once_with_zero_counters() {
    let (mut ledger, _) = set_up();
    let p = unique();
    ledger.initialize_player(&p).unwrap();
    let profile = ledger.players.get(&player_key(&ledger, &p)).unwrap();
    assert_eq!(profile.authority, p);
    assert_eq!(profile.total_credits, 0);
    assert_eq!(profile.blocks_minted, 0);
    assert_eq!(ledger.initialize_player(&p).unwrap_err(), ErrorCode::AlreadyExists);
    assert_eq!(ledger.players.len(), 1);
}

#[test]
fn player_address_matches_program_derivation() {
    let ledger = Ledger::new(Address::new(PROGRAM_ID));
    let p = unique();
    let (key, bump) = resolve(&PlayerProfile::seeds(&p), &ledger.program_id).unwrap();
    let (expected, expected_bump) = Pubkey::find_program_address(
        &[&PlayerProfile::SEED_PREFIX, &p.to_bytes()],
        &Pubkey::new_from_array(PROGRAM_ID),
    );
    assert_eq!(key.to_bytes(), expected.to_bytes());
    assert_eq!(bump, expected_bump);
    assert!(!key.same(&p));
}

#[test]
fn pool_address_uses_little_endian_seed() {
    let ledger = Ledger::new(Address::new(PROGRAM_ID));
    let p = unique();
    let seed: u64 = 0x0102_0304_0506_0708;
    let key = pool_key(&ledger, &p, seed);
    let (expected, _) = Pubkey::find_program_address(
        &[&ProjectPool::SEED_PREFIX, &p.to_bytes(), &seed.to_le_bytes()],
        &Pubkey::new_from_array(PROGRAM_ID),
    );
    assert_eq!(key.to_bytes(), expected.to_bytes());
    assert_eq!(ecobuild::address::le_bytes(seed), seed.to_le_bytes().to_vec());
}

#[test]
fn resolve_refuses_seeds_over_budget() {
    let id = Address::new(PROGRAM_ID);
    let long = vec![vec![1u8; 33]];
    assert_eq!(resolve(&long, &id).unwrap_err(), ErrorCode::SeedTooLong);
    let many = vec![vec![1u8; 1]; 16];
    assert_eq!(resolve(&many, &id).unwrap_err(), ErrorCode::SeedTooLong);
    let fits = vec![vec![1u8; 32]; 15];
    assert!(resolve(&fits, &id).is_ok());
    let a = resolve(&fits, &id).unwrap();
    let b = resolve(&fits, &id).unwrap();
    assert_eq!(a, b);
}

#[test]
fn different_tags_give_different_addresses() {
    let ledger = Ledger::new(Address::new(PROGRAM_ID));
    let p = unique();
    let player = player_key(&ledger, &p);
    let receipt = ecobuild::ProofOfCollectionReceipt::derive_pda(&ledger.program_id, &p, &[0u8; 32])
        .unwrap()
        .0;
    assert!(!player.same(&receipt));
}

#[test]
fn pool_over_funding_is_allowed() {
    let (mut ledger, _) = set_up();
    let p = unique();
    ledger.initialize_player(&p).unwrap();
    ledger.create_project_pool(&p, 1, "Garden", 10).unwrap();
    let pool = pool_key(&ledger, &p, 1);
    ledger.contribute_credits(&p, &pool, 6).unwrap();
    ledger.contribute_credits(&p, &pool, 6).unwrap();
    assert_eq!(ledger.pools.get(&pool).unwrap().received_credits, 12);
    assert_eq!(ledger.players.get(&player_key(&ledger, &p)).unwrap().total_credits, 12);
}

#[test]
fn contribution_overflow_changes_neither_record() {
    let (mut ledger, _) = set_up();
    let p = unique();
    ledger.initialize_player(&p).unwrap();
    ledger.create_project_pool(&p, 2, "Garden", 10).unwrap();
    let pool = pool_key(&ledger, &p, 2);
    ledger.contribute_credits(&p, &pool, 100).unwrap();
    assert_eq!(ledger.contribute_credits(&p, &pool, u64::MAX).unwrap_err(), ErrorCode::Overflow);
    assert_eq!(ledger.players.get(&player_key(&ledger, &p)).unwrap().total_credits, 100);
    assert_eq!(ledger.pools.get(&pool).unwrap().received_credits, 100);
    assert_eq!(ledger.contribute_credits(&p, &pool, 0).unwrap_err(), ErrorCode::InvalidAmount);
}

#[test]
fn contribution_needs_player_and_pool() {
    let (mut ledger, _) = set_up();
    let p = unique();
    ledger.create_project_pool(&p, 3, "Garden", 10).unwrap();
    let pool = pool_key(&ledger, &p, 3);
    assert_eq!(ledger.contribute_credits(&p, &pool, 1).unwrap_err(), ErrorCode::AccountNotFound);
    ledger.initialize_player(&p).unwrap();
    assert_eq!(ledger.contribute_credits(&p, &unique(), 1).unwrap_err(), ErrorCode::AccountNotFound);
}

#[test]
fn pool_creation_checks_goal_name_and_address() {
    let (mut ledger, _) = set_up();
    let p = unique();
    assert_eq!(ledger.create_project_pool(&p, 1, "Garden", 0).unwrap_err(), ErrorCode::InvalidAmount);
    let long = "n".repeat(33);
    assert_eq!(ledger.create_project_pool(&p, 1, &long, 5).unwrap_err(), ErrorCode::NameTooLong);
    assert_eq!(ledger.pools.len(), 0);
    let exact = "n".repeat(32);
    ledger.create_project_pool(&p, 1, &exact, 5).unwrap();
    let pool = ledger.pools.get(&pool_key(&ledger, &p, 1)).unwrap();
    assert_eq!(pool.name(), exact);
    assert_eq!(pool.goal_credits, 5);
    assert_eq!(pool.seed, 1);
    assert_eq!(ledger.create_project_pool(&p, 1, "Other", 7).unwrap_err(), ErrorCode::AlreadyExists);
    ledger.create_project_pool(&p, 2, "Other", 7).unwrap();
    assert_eq!(ledger.pools.len(), 2);
}

#[test]
fn receipt_for_an_attestation_is_created_once() {
    let (mut ledger, _) = set_up();
    let p = unique();
    ledger.initialize_player(&p).unwrap();
    ledger
        .mint_poc_receipt(&p, [5u8; 32], [1u8; 32], "zone-1", MaterialType::Glass as u8, 2, 10)
        .unwrap();
    let err = ledger
        .mint_poc_receipt(&p, [5u8; 32], [9u8; 32], "zone-9", MaterialType::Paper as u8, 7, 99)
        .unwrap_err();
    assert_eq!(err, ErrorCode::AlreadyExists);
    assert_eq!(ledger.receipts.len(), 1);
    let key = ecobuild::ProofOfCollectionReceipt::derive_pda(&ledger.program_id, &p, &[5u8; 32])
        .unwrap()
        .0;
    let stored = ledger.receipts.get(&key).unwrap();
    assert_eq!(stored.photo_hash, [1u8; 32]);
    assert_eq!(stored.zone_id(), "zone-1");
    assert_eq!(stored.player, p);
    ledger
        .mint_poc_receipt(&p, [6u8; 32], [1u8; 32], "zone-1", MaterialType::Glass as u8, 2, 10)
        .unwrap();
    assert_eq!(ledger.receipts.len(), 2);
}

#[test]
fn receipt_validates_before_looking_up_records() {
    let (mut ledger, _) = set_up();
    let p = unique();
    assert_eq!(
        ledger.mint_poc_receipt(&p, [5u8; 32], [1u8; 32], "zone-1", 0, 0, 10).unwrap_err(),
        ErrorCode::InvalidAmount
    );
    assert_eq!(
        ledger.mint_poc_receipt(&p, [5u8; 32], [1u8; 32], "zone-1", 0, 1, 10).unwrap_err(),
        ErrorCode::AccountNotFound
    );
    assert_eq!(
        ledger.mint_poc_receipt(&p, [5u8; 32], [1u8; 32], "zone-1", 4, 1, 10).unwrap_err(),
        ErrorCode::InvalidMaterialType
    );
}

#[test]
fn config_is_set_up_once() {
    let (mut ledger, authority) = set_up();
    let config = ledger.config.unwrap();
    assert_eq!(config.authority, authority);
    assert_eq!(config.total_blocks_minted, 0);
    assert_eq!(config.total_bricks_created, 0);
    assert_eq!(ledger.initialize_config(&unique(), &unique()).unwrap_err(), ErrorCode::AlreadyExists);
    assert_eq!(ledger.config.unwrap().authority, authority);
}

#[test]
fn mint_by_non_authority_is_refused() {
    let (mut ledger, _) = set_up();
    let p = unique();
    let err = ledger.mint_blocks(&unique(), &p, 5, 0, 100).unwrap_err();
    assert_eq!(err, ErrorCode::Unauthorized);
    assert_eq!(ledger.config.unwrap().total_blocks_minted, 0);
    assert_eq!(ledger.players.len(), 0);
}

#[test]
fn mint_creates_a_missing_player_then_updates_it() {
    let (mut ledger, authority) = set_up();
    let p = unique();
    let event = ledger.mint_blocks(&authority, &p, 5, MaterialType::Plastic as u8, 100).unwrap();
    assert_eq!(event.player, p);
    assert_eq!(event.amount, 5);
    assert_eq!(event.waste_type, 0);
    assert_eq!(event.timestamp, 100);
    let profile = ledger.players.get(&player_key(&ledger, &p)).unwrap();
    assert_eq!(profile.blocks_minted, 5);
    assert_eq!(profile.collections_count, 1);

    ledger.mint_blocks(&authority, &p, 7, MaterialType::Metal as u8, 101).unwrap();
    let profile = ledger.players.get(&player_key(&ledger, &p)).unwrap();
    assert_eq!(profile.blocks_minted, 12);
    assert_eq!(profile.collections_count, 2);
    assert_eq!(ledger.config.unwrap().total_blocks_minted, 12);
    assert_eq!(ledger.players.len(), 1);
}

#[test]
fn mint_checks_amount_material_and_totals() {
    let (mut ledger, authority) = set_up();
    let p = unique();
    assert_eq!(ledger.mint_blocks(&authority, &p, 0, 0, 1).unwrap_err(), ErrorCode::InvalidAmount);
    assert_eq!(ledger.mint_blocks(&authority, &p, 1, 4, 1).unwrap_err(), ErrorCode::InvalidMaterialType);
    ledger.mint_blocks(&authority, &p, u64::MAX, 0, 1).unwrap();
    assert_eq!(ledger.mint_blocks(&authority, &unique(), 1, 0, 1).unwrap_err(), ErrorCode::Overflow);
    assert_eq!(ledger.config.unwrap().total_blocks_minted, u64::MAX);
    assert_eq!(ledger.players.len(), 1);
}

#[test]
fn mint_without_config_is_refused() {
    let mut ledger = Ledger::new(Address::new(PROGRAM_ID));
    assert_eq!(ledger.mint_blocks(&unique(), &unique(), 1, 0, 1).unwrap_err(), ErrorCode::AccountNotFound);
}

#[test]
fn brick_needs_ten_blocks() {
    let (mut ledger, authority) = set_up();
    let p = unique();
    ledger.mint_blocks(&authority, &p, 9, 0, 1).unwrap();
    let mut balance: u64 = 9;
    let err = ledger.convert_to_brick(&p, &mut balance, 2).unwrap_err();
    assert_eq!(err, ErrorCode::InsufficientBlocks);
    assert_eq!(balance, 9);
    assert_eq!(ledger.players.get(&player_key(&ledger, &p)).unwrap().brick_count, 0);

    let mut balance: u64 = 10;
    let event = ledger.convert_to_brick(&p, &mut balance, 3).unwrap();
    assert_eq!(balance, 0);
    assert_eq!(event.new_brick_count, 1);
    assert_eq!(event.player, p);
    assert_eq!(event.timestamp, 3);
    assert_eq!(ledger.players.get(&player_key(&ledger, &p)).unwrap().brick_count, 1);
    assert_eq!(ledger.config.unwrap().total_bricks_created, 1);
}

#[test]
fn brick_needs_a_profile_and_a_config() {
    let (mut ledger, _) = set_up();
    let mut balance: u64 = 50;
    assert_eq!(ledger.convert_to_brick(&unique(), &mut balance, 1).unwrap_err(), ErrorCode::AccountNotFound);
    assert_eq!(balance, 50);
    let mut bare = Ledger::new(Address::new(PROGRAM_ID));
    assert_eq!(bare.convert_to_brick(&unique(), &mut balance, 1).unwrap_err(), ErrorCode::AccountNotFound);
}

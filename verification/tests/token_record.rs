use token_record::args::CreateRwaTokenArgs;
use token_record::args::CreateStandardTokenArgs;
use token_record::error::CreateError;
use token_record::error::ErrorCode;
use token_record::manager::create_rwa_token;
use token_record::manager::create_standard_token;
use token_record::manager::plan_rwa;
use token_record::manager::plan_standard;
use token_record::record::TokenKind;
use token_record::record::TokenRecord;
use token_record::store::RecordStore;

const PROGRAM_ID: [u8; 32] = [7u8; 32];
const AUTHORITY: [u8; 32] = [1u8; 32];
const MINT_A: [u8; 32] = [2u8; 32];
const MINT_B: [u8; 32] = [3u8; 32];

fn standard_args(name: &str, symbol: &str, uri: &str, initial_supply: u64) -> CreateStandardTokenArgs {
    CreateStandardTokenArgs {
        name: name.to_string(),
        symbol: symbol.to_string(),
        uri: uri.to_string(),
        initial_supply,
    }
}

fn rwa_args(asset_id: &str) -> CreateRwaTokenArgs {
    CreateRwaTokenArgs {
        name: "Estate".to_string(),
        symbol: "EST".to_string(),
        uri: "ipfs://estate".to_string(),
        initial_supply: 5,
        asset_id: asset_id.to_string(),
        valuation: 1_000_000,
        yield_bps: 850,
    }
}

#[test]
fn validate_standard_accepts_fields_at_their_caps() {
    let args = standard_args(&"a".repeat(64), &"s".repeat(16), &"u".repeat(200), 1);
    assert_eq!(args.validate_standard(), Ok(()));
}

#[test]
fn validate_standard_rejects_each_oversized_field() {
    let a = standard_args(&"a".repeat(65), "GLD", "ipfs://x", 1);
    assert_eq!(a.validate_standard(), Err(ErrorCode::NameTooLong));
    let b = standard_args("Gold", &"s".repeat(17), "ipfs://x", 1);
    assert_eq!(b.validate_standard(), Err(ErrorCode::SymbolTooLong));
    let c = standard_args("Gold", "GLD", &"u".repeat(201), 1);
    assert_eq!(c.validate_standard(), Err(ErrorCode::UriTooLong));
}

#[test]
fn validation_measures_bytes_not_characters() {
    // 33 two-byte characters: 33 chars but 66 encoded bytes, over the cap.
    let args = standard_args(&"é".repeat(33), "GLD", "ipfs://x", 1);
    assert_eq!(args.validate_standard(), Err(ErrorCode::NameTooLong));
    // 32 of them: 64 bytes, exactly at the cap.
    let args = standard_args(&"é".repeat(32), "GLD", "ipfs://x", 1);
    assert_eq!(args.validate_standard(), Ok(()));
}

#[test]
fn validate_rwa_asset_id_boundary_is_inclusive() {
    assert_eq!(rwa_args(&"x".repeat(64)).validate_rwa(), Ok(()));
    assert_eq!(
        rwa_args(&"x".repeat(65)).validate_rwa(),
        Err(ErrorCode::AssetIdTooLong)
    );
}

#[test]
fn validation_order_reports_first_failing_field() {
    let mut args = rwa_args(&"x".repeat(65));
    args.name = "n".repeat(65);
    assert_eq!(args.validate_rwa(), Err(ErrorCode::NameTooLong));
}

#[test]
fn error_messages_are_distinct_and_stable() {
    assert_eq!(
        ErrorCode::NameTooLong.message(),
        "The provided name exceeds the allowed length."
    );
    assert_eq!(
        ErrorCode::SymbolTooLong.message(),
        "The provided symbol exceeds the allowed length."
    );
    assert_eq!(
        ErrorCode::UriTooLong.message(),
        "The provided URI exceeds the allowed length."
    );
    assert_eq!(
        ErrorCode::AssetIdTooLong.message(),
        "The provided asset identifier is too long."
    );
}

#[test]
fn record_space_is_the_documented_constant() {
    assert_eq!(TokenRecord::space(), 454);
}

#[test]
fn plan_reports_the_amount_to_mint() {
    assert_eq!(plan_standard(&standard_args("Gold", "GLD", "ipfs://x", 1000)), Ok(Some(1000)));
    assert_eq!(plan_standard(&standard_args("Gold", "GLD", "ipfs://x", 0)), Ok(None));
    assert_eq!(
        plan_standard(&standard_args(&"a".repeat(65), "GLD", "ipfs://x", 1000)),
        Err(ErrorCode::NameTooLong)
    );
    assert_eq!(plan_rwa(&rwa_args("deed-1")), Ok(Some(5)));
}

#[test]
fn derivation_is_deterministic_and_mint_keyed() {
    let first = token_record::address::derive_record_address(&PROGRAM_ID, &MINT_A).unwrap();
    let second = token_record::address::derive_record_address(&PROGRAM_ID, &MINT_A).unwrap();
    assert_eq!(first, second);
    let other = token_record::address::derive_record_address(&PROGRAM_ID, &MINT_B).unwrap();
    assert_ne!(first.0, other.0);
    assert_ne!(first.0, MINT_A);
}

#[test]
fn derivation_matches_the_underlying_scheme() {
    let (address, bump) = token_record::address::derive_record_address(&PROGRAM_ID, &MINT_A).unwrap();
    let (expected, expected_bump) = solana_pubkey::Pubkey::find_program_address(
        &[b"token-record", &MINT_A],
        &solana_pubkey::Pubkey::new_from_array(PROGRAM_ID),
    );
    assert_eq!(address, expected.to_bytes());
    assert_eq!(bump, expected_bump);
}

#[test]
fn scenario_standard_creation_mints_and_writes_the_record() {
    let mut store = RecordStore::new();
    let args = standard_args("Gold", "GLD", "ipfs://x", 1000);

    // The surrounding runtime performs the planned issuance, then commits.
    let mut minted: u64 = 0;
    let plan = plan_standard(&args).unwrap();
    if let Some(amount) = plan {
        minted += amount;
    }
    let address =
        create_standard_token(&mut store, &PROGRAM_ID, &AUTHORITY, &MINT_A, args, true).unwrap();

    assert_eq!(minted, 1000);
    let record = store.get(&address).unwrap();
    assert!(matches!(record.kind, TokenKind::Standard));
    assert_eq!(record.decimals, 9);
    assert_eq!(record.supply, 1000);
    assert_eq!(record.name, "Gold");
    assert_eq!(record.symbol, "GLD");
    assert_eq!(record.uri, "ipfs://x");
    assert_eq!(record.authority, AUTHORITY);
    assert_eq!(record.mint, MINT_A);
    assert!(record.rwa.is_none());
    let (_, bump) = token_record::address::derive_record_address(&PROGRAM_ID, &MINT_A).unwrap();
    assert_eq!(record.bump, bump);
}

#[test]
fn scenario_oversized_name_aborts_before_any_mint() {
    let mut store = RecordStore::new();
    let args = standard_args(&"n".repeat(65), "GLD", "ipfs://x", 1000);

    let mut minted: u64 = 0;
    let plan = plan_standard(&args);
    assert_eq!(plan, Err(ErrorCode::NameTooLong));
    // The runtime only mints on an Ok plan, so nothing is issued.
    if let Ok(Some(amount)) = plan {
        minted += amount;
    }
    assert_eq!(minted, 0);

    let result = create_standard_token(&mut store, &PROGRAM_ID, &AUTHORITY, &MINT_A, args, true);
    assert_eq!(result, Err(CreateError::Validation(ErrorCode::NameTooLong)));
    assert_eq!(store.len(), 0);
}

#[test]
fn scenario_rwa_creation_populates_the_sub_record() {
    let mut store = RecordStore::new();
    let args = rwa_args(&"d".repeat(64));
    let address =
        create_rwa_token(&mut store, &PROGRAM_ID, &AUTHORITY, &MINT_A, args, true).unwrap();
    let record = store.get(&address).unwrap();
    assert!(matches!(record.kind, TokenKind::Rwa));
    assert_eq!(record.decimals, 6);
    let rwa = record.rwa.as_ref().unwrap();
    assert_eq!(rwa.asset_id, "d".repeat(64));
    assert_eq!(rwa.valuation, 1_000_000);
    assert_eq!(rwa.yield_bps, 850);

    let too_long = rwa_args(&"d".repeat(65));
    let result = create_rwa_token(&mut store, &PROGRAM_ID, &AUTHORITY, &MINT_B, too_long, true);
    assert_eq!(result, Err(CreateError::Validation(ErrorCode::AssetIdTooLong)));
}

#[test]
fn scenario_zero_supply_skips_the_mint_but_writes_the_record() {
    let mut store = RecordStore::new();
    let args = standard_args("Gold", "GLD", "ipfs://x", 0);

    let mut minted: u64 = 0;
    if let Some(amount) = plan_standard(&args).unwrap() {
        minted += amount;
    }
    assert_eq!(minted, 0);

    let address =
        create_standard_token(&mut store, &PROGRAM_ID, &AUTHORITY, &MINT_A, args, true).unwrap();
    assert_eq!(store.get(&address).unwrap().supply, 0);
    assert_eq!(store.len(), 1);
}

#[test]
fn mint_failure_aborts_with_no_record() {
    let mut store = RecordStore::new();
    let args = standard_args("Gold", "GLD", "ipfs://x", 1000);
    let result = create_standard_token(&mut store, &PROGRAM_ID, &AUTHORITY, &MINT_A, args, false);
    assert_eq!(result, Err(CreateError::MintFailed));
    assert_eq!(store.len(), 0);
}

#[test]
fn stored_records_encode_within_the_reserved_slot() {
    let mut store = RecordStore::new();
    let std_addr = create_standard_token(
        &mut store,
        &PROGRAM_ID,
        &AUTHORITY,
        &MINT_A,
        standard_args("Gold", "GLD", "ipfs://x", 1000),
        true,
    )
    .unwrap();
    let rwa_addr =
        create_rwa_token(&mut store, &PROGRAM_ID, &AUTHORITY, &MINT_B, rwa_args("deed-1"), true)
            .unwrap();
    assert!(store.contains(&std_addr));
    assert!(store.contains(&rwa_addr));
    for addr in [std_addr, rwa_addr] {
        let bytes = token_record::codec::encode_record(store.get(&addr).unwrap());
        assert!(bytes.len() + 8 <= TokenRecord::space());
    }
}

#[test]
fn scenario_second_request_for_one_mint_observes_duplicate() {
    let mut store = RecordStore::new();
    let mut minted: u64 = 0;

    let first = standard_args("Gold", "GLD", "ipfs://x", 1000);
    if let Some(amount) = plan_standard(&first).unwrap() {
        minted += amount;
    }
    let winner =
        create_standard_token(&mut store, &PROGRAM_ID, &AUTHORITY, &MINT_A, first, true).unwrap();

    let second = standard_args("Gold II", "GLD2", "ipfs://y", 400);
    if let Some(amount) = plan_standard(&second).unwrap() {
        minted += amount;
    }
    let loser = create_standard_token(&mut store, &PROGRAM_ID, &AUTHORITY, &MINT_A, second, true);
    assert_eq!(loser, Err(CreateError::DuplicateRecord));
    if let Err(CreateError::DuplicateRecord) = loser {
        // Compensating reversal: the loser's issuance is burned.
        minted -= 400;
    }

    assert_eq!(store.len(), 1);
    assert_eq!(minted, 1000);
    assert_eq!(store.get(&winner).unwrap().name, "Gold");

    // A later RWA request for the same mint identity is refused too.
    let rwa = create_rwa_token(&mut store, &PROGRAM_ID, &AUTHORITY, &MINT_A, rwa_args("deed"), true);
    assert_eq!(rwa, Err(CreateError::DuplicateRecord));
    assert_eq!(store.len(), 1);
}

use vstd::prelude::*;
use crate::address::derive_record_address;
use crate::address::record_address;
use crate::args::rwa_validation;
use crate::args::standard_validation;
use crate::args::CreateRwaTokenArgs;
use crate::args::CreateStandardTokenArgs;
use crate::error::CreateError;
use crate::error::ErrorCode;
use crate::record::Address;
use crate::record::RwaData;
use crate::record::TokenKind;
use crate::record::TokenRecord;
use crate::record::RWA_TOKEN_DECIMALS;
use crate::record::STANDARD_TOKEN_DECIMALS;
use crate::store::RecordStore;

verus! {

/// The record a successful standard creation writes: every field from
/// the validated input, `kind`, `decimals` and `rwa` fixed by the
/// standard scheme, and the derivation salt recorded.
pub open spec fn standard_record(
    authority: Address,
    mint: Address,
    bump: u8,
    args: CreateStandardTokenArgs,
) -> TokenRecord {
    TokenRecord {
        bump,
        kind: TokenKind::Standard,
        authority,
        mint,
        decimals: STANDARD_TOKEN_DECIMALS,
        supply: args.initial_supply,
        name: args.name,
        symbol: args.symbol,
        uri: args.uri,
        rwa: None,
    }
}

/// The record a successful RWA creation writes: as the standard one,
/// but with the RWA scheme's precision and the asset sub-record
/// populated from the input.
pub open spec fn rwa_record(
    authority: Address,
    mint: Address,
    bump: u8,
    args: CreateRwaTokenArgs,
) -> TokenRecord {
    TokenRecord {
        bump,
        kind: TokenKind::Rwa,
        authority,
        mint,
        decimals: RWA_TOKEN_DECIMALS,
        supply: args.initial_supply,
        name: args.name,
        symbol: args.symbol,
        uri: args.uri,
        rwa: Some(
            RwaData {
                asset_id: args.asset_id,
                valuation: args.valuation,
                yield_bps: args.yield_bps,
            },
        ),
    }
}

/// The issuance a standard request asks of the external mint service:
/// an error when a field fails validation, otherwise the amount to
/// mint — `None` when the initial supply is zero, so that no mint call
/// is made at all.
pub open spec fn standard_mint_plan(a: CreateStandardTokenArgs) -> Result<Option<u64>, ErrorCode> {
    match standard_validation(a) {
        Err(e) => Err(e),
        Ok(u) => if a.initial_supply > 0 {
            Ok(Some(a.initial_supply))
        } else {
            Ok(None)
        },
    }
}

/// The issuance an RWA request asks of the external mint service.
pub open spec fn rwa_mint_plan(a: CreateRwaTokenArgs) -> Result<Option<u64>, ErrorCode> {
    match rwa_validation(a) {
        Err(e) => Err(e),
        Ok(u) => if a.initial_supply > 0 {
            Ok(Some(a.initial_supply))
        } else {
            Ok(None)
        },
    }
}

/// What one standard creation request does to the record table, and
/// what it returns: validation first, then the mint service's verdict,
/// then address derivation, then the storage layer's duplicate guard;
/// only when all four pass is the record written.
pub open spec fn create_standard_model(
    table: Map<Seq<u8>, TokenRecord>,
    program_id: Seq<u8>,
    authority: Address,
    mint: Address,
    args: CreateStandardTokenArgs,
    mint_ok: bool,
) -> (Map<Seq<u8>, TokenRecord>, Result<Seq<u8>, CreateError>) {
    match standard_validation(args) {
        Err(e) => (table, Err(CreateError::Validation(e))),
        Ok(u) => if !mint_ok {
            (table, Err(CreateError::MintFailed))
        } else {
            match record_address(program_id, mint@) {
                None => (table, Err(CreateError::AddressUnavailable)),
                Some((addr, bump)) => if table.contains_key(addr) {
                    (table, Err(CreateError::DuplicateRecord))
                } else {
                    (table.insert(addr, standard_record(authority, mint, bump, args)), Ok(addr))
                },
            }
        },
    }
}

/// What one RWA creation request does to the record table, and what it
/// returns; the same four gates as the standard flow.
pub open spec fn create_rwa_model(
    table: Map<Seq<u8>, TokenRecord>,
    program_id: Seq<u8>,
    authority: Address,
    mint: Address,
    args: CreateRwaTokenArgs,
    mint_ok: bool,
) -> (Map<Seq<u8>, TokenRecord>, Result<Seq<u8>, CreateError>) {
    match rwa_validation(args) {
        Err(e) => (table, Err(CreateError::Validation(e))),
        Ok(u) => if !mint_ok {
            (table, Err(CreateError::MintFailed))
        } else {
            match record_address(program_id, mint@) {
                None => (table, Err(CreateError::AddressUnavailable)),
                Some((addr, bump)) => if table.contains_key(addr) {
                    (table, Err(CreateError::DuplicateRecord))
                } else {
                    (table.insert(addr, rwa_record(authority, mint, bump, args)), Ok(addr))
                },
            }
        },
    }
}

/// A creation result with its address taken to raw bytes, for
/// comparison with the spec-level model.
pub open spec fn abstract_result(r: Result<Address, CreateError>) -> Result<Seq<u8>, CreateError> {
    match r {
        Ok(a) => Ok(a@),
        Err(e) => Err(e),
    }
}

/// Populates a standard record from a validated request: the caller's
/// identity, the mint identity, the derivation salt, and the request's
/// fields, with `kind`, `decimals` and `rwa` fixed by the standard
/// scheme.
pub fn build_standard_record(
    authority: &Address,
    mint: &Address,
    bump: u8,
    args: CreateStandardTokenArgs,
) -> (r: TokenRecord)
    ensures
        r == standard_record(*authority, *mint, bump, args),
{
    TokenRecord {
        bump,
        kind: TokenKind::Standard,
        authority: *authority,
        mint: *mint,
        decimals: STANDARD_TOKEN_DECIMALS,
        supply: args.initial_supply,
        name: args.name,
        symbol: args.symbol,
        uri: args.uri,
        rwa: None,
    }
}

/// Populates an RWA record from a validated request, with the RWA
/// scheme's precision and the asset sub-record filled in.
pub fn build_rwa_record(
    authority: &Address,
    mint: &Address,
    bump: u8,
    args: CreateRwaTokenArgs,
) -> (r: TokenRecord)
    ensures
        r == rwa_record(*authority, *mint, bump, args),
{
    TokenRecord {
        bump,
        kind: TokenKind::Rwa,
        authority: *authority,
        mint: *mint,
        decimals: RWA_TOKEN_DECIMALS,
        supply: args.initial_supply,
        name: args.name,
        symbol: args.symbol,
        uri: args.uri,
        rwa: Some(
            RwaData {
                asset_id: args.asset_id,
                valuation: args.valuation,
                yield_bps: args.yield_bps,
            },
        ),
    }
}

/// Validates a standard request and plans its issuance. Runs before
/// any side effect: an error here means the mint service must not be
/// called and no record may be written.
pub fn plan_standard(args: &CreateStandardTokenArgs) -> (r: Result<Option<u64>, ErrorCode>)
    ensures
        r == standard_mint_plan(*args),
{
    match args.validate_standard() {
        Err(e) => Err(e),
        Ok(u) => if args.initial_supply > 0 {
            Ok(Some(args.initial_supply))
        } else {
            Ok(None)
        },
    }
}

/// Validates an RWA request and plans its issuance.
pub fn plan_rwa(args: &CreateRwaTokenArgs) -> (r: Result<Option<u64>, ErrorCode>)
    ensures
        r == rwa_mint_plan(*args),
{
    match args.validate_rwa() {
        Err(e) => Err(e),
        Ok(u) => if args.initial_supply > 0 {
            Ok(Some(args.initial_supply))
        } else {
            Ok(None)
        },
    }
}

/// Creates a standard token record: validates the request, honours the
/// mint service's verdict on the planned issuance (`mint_ok`, reported
/// by the caller that performed it; `true` when none was planned),
/// derives the record's address from the mint identity, and writes the
/// fully populated record — unless one already exists at that address.
/// Any failure leaves the store exactly as it was.
pub fn create_standard_token(
    store: &mut RecordStore,
    program_id: &Address,
    authority: &Address,
    mint: &Address,
    args: CreateStandardTokenArgs,
    mint_ok: bool,
) -> (r: Result<Address, CreateError>)
    requires
        old(store).wf(),
    ensures
        final(store).wf(),
        final(store)@ == create_standard_model(
            old(store)@,
            program_id@,
            *authority,
            *mint,
            args,
            mint_ok,
        ).0,
        abstract_result(r) == create_standard_model(
            old(store)@,
            program_id@,
            *authority,
            *mint,
            args,
            mint_ok,
        ).1,
{
    if let Err(e) = args.validate_standard() {
        return Err(CreateError::Validation(e));
    }
    if !mint_ok {
        return Err(CreateError::MintFailed);
    }
    match derive_record_address(program_id, mint) {
        None => Err(CreateError::AddressUnavailable),
        Some((address, bump)) => {
            let record = build_standard_record(authority, mint, bump, args);
            if store.insert(address, record) {
                Ok(address)
            } else {
                Err(CreateError::DuplicateRecord)
            }
        },
    }
}

/// Creates an RWA token record; the same four gates as the standard
/// flow, writing the RWA scheme's record.
pub fn create_rwa_token(
    store: &mut RecordStore,
    program_id: &Address,
    authority: &Address,
    mint: &Address,
    args: CreateRwaTokenArgs,
    mint_ok: bool,
) -> (r: Result<Address, CreateError>)
    requires
        old(store).wf(),
    ensures
        final(store).wf(),
        final(store)@ == create_rwa_model(
            old(store)@,
            program_id@,
            *authority,
            *mint,
            args,
            mint_ok,
        ).0,
        abstract_result(r) == create_rwa_model(
            old(store)@,
            program_id@,
            *authority,
            *mint,
            args,
            mint_ok,
        ).1,
{
    if let Err(e) = args.validate_rwa() {
        return Err(CreateError::Validation(e));
    }
    if !mint_ok {
        return Err(CreateError::MintFailed);
    }
    match derive_record_address(program_id, mint) {
        None => Err(CreateError::AddressUnavailable),
        Some((address, bump)) => {
            let record = build_rwa_record(authority, mint, bump, args);
            if store.insert(address, record) {
                Ok(address)
            } else {
                Err(CreateError::DuplicateRecord)
            }
        },
    }
}

} // verus!

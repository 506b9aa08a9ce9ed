use vstd::prelude::*;
use crate::address::record_address;
use crate::args::standard_validation;
use crate::args::standard_args_valid;
use crate::args::rwa_validation;
use crate::args::rwa_args_valid;
use crate::args::CreateRwaTokenArgs;
use crate::args::CreateStandardTokenArgs;
use crate::error::CreateError;
use crate::error::ErrorCode;
use crate::manager::create_rwa_model;
use crate::manager::create_standard_model;
use crate::manager::rwa_mint_plan;
use crate::manager::standard_mint_plan;
use crate::record::Address;
use crate::record::TokenKind;
use crate::record::TokenRecord;

verus! {

/// Validation precedes every effect: a standard request with an
/// oversized text field plans no issuance — so the mint service is
/// never called — and the creation flow returns that field's error
/// with the record table untouched.
pub proof fn lemma_validation_before_effect_standard(
    table: Map<Seq<u8>, TokenRecord>,
    program_id: Seq<u8>,
    authority: Address,
    mint: Address,
    args: CreateStandardTokenArgs,
    mint_ok: bool,
    e: ErrorCode,
)
    requires
        standard_validation(args) == Err::<(), ErrorCode>(e),
    ensures
        standard_mint_plan(args) == Err::<Option<u64>, ErrorCode>(e),
        create_standard_model(table, program_id, authority, mint, args, mint_ok).0 == table,
        create_standard_model(table, program_id, authority, mint, args, mint_ok).1 == Err::<
            Seq<u8>,
            CreateError,
        >(CreateError::Validation(e)),
{
}

/// Validation precedes every effect, for RWA requests.
pub proof fn lemma_validation_before_effect_rwa(
    table: Map<Seq<u8>, TokenRecord>,
    program_id: Seq<u8>,
    authority: Address,
    mint: Address,
    args: CreateRwaTokenArgs,
    mint_ok: bool,
    e: ErrorCode,
)
    requires
        rwa_validation(args) == Err::<(), ErrorCode>(e),
    ensures
        rwa_mint_plan(args) == Err::<Option<u64>, ErrorCode>(e),
        create_rwa_model(table, program_id, authority, mint, args, mint_ok).0 == table,
        create_rwa_model(table, program_id, authority, mint, args, mint_ok).1 == Err::<
            Seq<u8>,
            CreateError,
        >(CreateError::Validation(e)),
{
}

/// Every successfully created standard record, whatever the input, has
/// nine decimals and no RWA data; its remaining fields come from the
/// request and the derivation, and it is well formed. It sits at the
/// address derived from the mint identity, with the salt recorded.
pub proof fn lemma_standard_created_shape(
    table: Map<Seq<u8>, TokenRecord>,
    program_id: Seq<u8>,
    authority: Address,
    mint: Address,
    args: CreateStandardTokenArgs,
    mint_ok: bool,
)
    requires
        create_standard_model(table, program_id, authority, mint, args, mint_ok).1 is Ok,
    ensures
        ({
            let (t2, r) = create_standard_model(table, program_id, authority, mint, args, mint_ok);
            let addr = r.unwrap();
            &&& t2.contains_key(addr)
            &&& t2[addr].kind == TokenKind::Standard
            &&& t2[addr].decimals == 9
            &&& t2[addr].rwa is None
            &&& t2[addr].supply == args.initial_supply
            &&& t2[addr].authority == authority
            &&& t2[addr].mint == mint
            &&& t2[addr].name == args.name
            &&& t2[addr].symbol == args.symbol
            &&& t2[addr].uri == args.uri
            &&& t2[addr].wf()
            &&& record_address(program_id, mint@) == Some((addr, t2[addr].bump))
        }),
{
}

/// Every successfully created RWA record, whatever the input, has six
/// decimals and a populated asset sub-record.
pub proof fn lemma_rwa_created_shape(
    table: Map<Seq<u8>, TokenRecord>,
    program_id: Seq<u8>,
    authority: Address,
    mint: Address,
    args: CreateRwaTokenArgs,
    mint_ok: bool,
)
    requires
        create_rwa_model(table, program_id, authority, mint, args, mint_ok).1 is Ok,
    ensures
        ({
            let (t2, r) = create_rwa_model(table, program_id, authority, mint, args, mint_ok);
            let addr = r.unwrap();
            &&& t2.contains_key(addr)
            &&& t2[addr].kind == TokenKind::Rwa
            &&& t2[addr].decimals == 6
            &&& t2[addr].rwa matches Some(d) && d.asset_id == args.asset_id && d.valuation
                == args.valuation && d.yield_bps == args.yield_bps
            &&& t2[addr].supply == args.initial_supply
            &&& t2[addr].authority == authority
            &&& t2[addr].mint == mint
            &&& t2[addr].wf()
            &&& record_address(program_id, mint@) == Some((addr, t2[addr].bump))
        }),
{
}

/// The created record's address is a function of the program and mint
/// identities alone: two successful creations for one mint identity —
/// of either kind, from any two tables, with any requests — land on
/// one address.
pub proof fn lemma_address_depends_on_mint_alone(
    t1: Map<Seq<u8>, TokenRecord>,
    t2: Map<Seq<u8>, TokenRecord>,
    program_id: Seq<u8>,
    authority1: Address,
    authority2: Address,
    mint: Address,
    args1: CreateStandardTokenArgs,
    args2: CreateRwaTokenArgs,
    ok1: bool,
    ok2: bool,
)
    requires
        create_standard_model(t1, program_id, authority1, mint, args1, ok1).1 is Ok,
        create_rwa_model(t2, program_id, authority2, mint, args2, ok2).1 is Ok,
    ensures
        create_standard_model(t1, program_id, authority1, mint, args1, ok1).1
            == create_rwa_model(t2, program_id, authority2, mint, args2, ok2).1,
{
}

/// At most one creation per mint identity: once a standard creation
/// has succeeded, any later standard request for the same mint fails
/// and changes nothing; when that request is otherwise flawless, the
/// error it observes is precisely `DuplicateRecord`.
pub proof fn lemma_one_creation_per_mint_standard(
    table: Map<Seq<u8>, TokenRecord>,
    program_id: Seq<u8>,
    authority1: Address,
    authority2: Address,
    mint: Address,
    args1: CreateStandardTokenArgs,
    args2: CreateStandardTokenArgs,
    ok1: bool,
    ok2: bool,
)
    requires
        create_standard_model(table, program_id, authority1, mint, args1, ok1).1 is Ok,
    ensures
        ({
            let t2 = create_standard_model(table, program_id, authority1, mint, args1, ok1).0;
            let second = create_standard_model(t2, program_id, authority2, mint, args2, ok2);
            &&& !(second.1 is Ok)
            &&& second.0 == t2
            &&& (standard_args_valid(args2) && ok2 ==> second.1 == Err::<
                Seq<u8>,
                CreateError,
            >(CreateError::DuplicateRecord))
        }),
{
}

/// At most one creation per mint identity, across kinds: after a
/// successful standard creation, an RWA request for the same mint
/// fails and changes nothing.
pub proof fn lemma_one_creation_per_mint_rwa(
    table: Map<Seq<u8>, TokenRecord>,
    program_id: Seq<u8>,
    authority1: Address,
    authority2: Address,
    mint: Address,
    args1: CreateStandardTokenArgs,
    args2: CreateRwaTokenArgs,
    ok1: bool,
    ok2: bool,
)
    requires
        create_standard_model(table, program_id, authority1, mint, args1, ok1).1 is Ok,
    ensures
        ({
            let t2 = create_standard_model(table, program_id, authority1, mint, args1, ok1).0;
            let second = create_rwa_model(t2, program_id, authority2, mint, args2, ok2);
            &&& !(second.1 is Ok)
            &&& second.0 == t2
            &&& (rwa_args_valid(args2) && ok2 ==> second.1 == Err::<Seq<u8>, CreateError>(
                CreateError::DuplicateRecord,
            ))
        }),
{
}

/// Creation preserves the store-wide invariant: when every persisted
/// record is well formed, every record after a creation request — of
/// either kind, however it ends — is well formed too.
pub proof fn lemma_records_stay_wf(
    table: Map<Seq<u8>, TokenRecord>,
    program_id: Seq<u8>,
    authority: Address,
    mint: Address,
    std_args: CreateStandardTokenArgs,
    rwa_args: CreateRwaTokenArgs,
    mint_ok: bool,
)
    requires
        forall|k: Seq<u8>| #[trigger] table.contains_key(k) ==> table[k].wf(),
    ensures
        ({
            let t2 = create_standard_model(table, program_id, authority, mint, std_args, mint_ok).0;
            forall|k: Seq<u8>| #[trigger] t2.contains_key(k) ==> t2[k].wf()
        }),
        ({
            let t3 = create_rwa_model(table, program_id, authority, mint, rwa_args, mint_ok).0;
            forall|k: Seq<u8>| #[trigger] t3.contains_key(k) ==> t3[k].wf()
        }),
{
}

} // verus!


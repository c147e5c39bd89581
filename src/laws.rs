//! Properties that relate the operations to each other and to every input.
use vstd::prelude::*;
use vstd::bytes::{lemma_auto_spec_u64_to_from_le_bytes, spec_u64_to_le_bytes};
use crate::account::{AccountState, Effect};
use crate::address::{canonical_program_address, created_program_address, escrow_seed_list, found_program_address};
use crate::errors::EscrowError;
use crate::instructions::helpers::{is_closed, token_amount};
use crate::instructions::make::{
    made_record, make_accounts_check, make_args, make_outcome, MAKE_ESCROW, MAKE_MAKER, MAKE_MAKER_ATA_A, MAKE_VAULT,
};
use crate::instructions::refund::{
    refund_outcome, REFUND_ACCOUNTS, REFUND_ESCROW, REFUND_MAKER, REFUND_MAKER_ATA_A,
    REFUND_VAULT,
};
use crate::instructions::take::{
    take_outcome, TAKE_ACCOUNTS, TAKE_ESCROW, TAKE_MAKER, TAKE_MAKER_ATA_B, TAKE_TAKER,
    TAKE_TAKER_ATA_A, TAKE_TAKER_ATA_B, TAKE_VAULT,
};
use crate::state::load_record;

verus! {

/// Make's payload: `seed ‖ receive ‖ amount`, little-endian.
pub open spec fn make_payload(seed: u64, receive: u64, amount: u64) -> Seq<u8> {
    spec_u64_to_le_bytes(seed) + spec_u64_to_le_bytes(receive) + spec_u64_to_le_bytes(amount)
}

/// The tokens that one effect moves into the account at position `account`,
/// less those it moves out.
pub open spec fn token_flow(e: Effect, account: usize) -> int {
    match e {
        Effect::Transfer { from, to, amount, .. } => (if to == account { amount as int } else { 0 })
            - (if from == account { amount as int } else { 0 }),
        Effect::TransferChecked { from, to, amount, .. } => (if to == account { amount as int } else { 0 })
            - (if from == account { amount as int } else { 0 }),
        _ => 0,
    }
}

/// The net number of tokens that a list of effects moves into the account at
/// position `account`.
pub open spec fn net_token_flow(effects: Seq<Effect>, account: usize) -> int
    decreases effects.len(),
{
    if effects.len() == 0 {
        0
    } else {
        net_token_flow(effects.drop_last(), account) + token_flow(effects.last(), account)
    }
}

pub proof fn lemma_net_token_flow_concat(s1: Seq<Effect>, s2: Seq<Effect>, account: usize)
    ensures
        net_token_flow(s1 + s2, account) == net_token_flow(s1, account) + net_token_flow(s2, account),
    decreases s2.len(),
{
    if s2.len() > 0 {
        assert((s1 + s2).drop_last() =~= s1 + s2.drop_last());
        lemma_net_token_flow_concat(s1, s2.drop_last(), account);
    } else {
        assert(s1 + s2 =~= s1);
    }
}

/// Creations of accounts move no tokens.
proof fn lemma_creations_move_nothing(s: Seq<Effect>, account: usize)
    requires
        forall|i: int| 0 <= i < s.len() ==> (#[trigger] s[i]) is CreateTokenAccount || s[i] is CreateRecord
            || s[i] is CreateVault,
    ensures
        net_token_flow(s, account) == 0,
    decreases s.len(),
{
    if s.len() > 0 {
        lemma_creations_move_nothing(s.drop_last(), account);
    }
}

/// A successful Make of a new record moves exactly the deposit from the
/// maker's asset-A account into the vault, and no other tokens.
pub proof fn lemma_make_moves_deposit(program_id: Seq<u8>, data: Seq<u8>, a: Seq<AccountState>, account: usize)
    requires
        make_outcome(program_id, data, a) is Ok,
        a[MAKE_ESCROW as int].data@.len() == 0,
    ensures
        ({
            let effects = make_outcome(program_id, data, a)->Ok_0;
            let amount = make_args(data)->Ok_0.amount as int;
            net_token_flow(effects, account) == if account == MAKE_VAULT {
                amount
            } else if account == MAKE_MAKER_ATA_A {
                -amount
            } else {
                0
            }
        }),
{
    let effects = make_outcome(program_id, data, a)->Ok_0;
    let n = effects.len();
    let creations = effects.subrange(0, n - 2);
    let settlement = effects.subrange(n - 2, n as int);
    assert(effects =~= creations + settlement);
    lemma_creations_move_nothing(creations, account);
    lemma_net_token_flow_concat(creations, settlement, account);
    assert(settlement.drop_last().drop_last() =~= Seq::<Effect>::empty());
    reveal_with_fuel(net_token_flow, 3);
}

/// A successful Take moves the vault's whole balance to the taker's asset-A
/// account and exactly the record's price from the taker's asset-B account
/// to the maker's, and no other tokens; it closes the vault and then the
/// record, both to the maker.
pub proof fn lemma_take_moves_balances(program_id: Seq<u8>, a: Seq<AccountState>, account: usize)
    requires
        take_outcome(program_id, a) is Ok,
    ensures
        ({
            let effects = take_outcome(program_id, a)->Ok_0;
            let held = token_amount(a[TAKE_VAULT as int].data@) as int;
            let price = load_record(a[TAKE_ESCROW as int].data@)->Ok_0.receive as int;
            &&& net_token_flow(effects, account) == if account == TAKE_VAULT {
                -held
            } else if account == TAKE_TAKER_ATA_A {
                held
            } else if account == TAKE_TAKER_ATA_B {
                -price
            } else if account == TAKE_MAKER_ATA_B {
                price
            } else {
                0
            }
            &&& effects.len() >= 2
            &&& effects[effects.len() - 3] is CloseTokenAccount
            &&& effects[effects.len() - 3]->CloseTokenAccount_account == TAKE_VAULT
            &&& effects[effects.len() - 3]->CloseTokenAccount_destination == TAKE_MAKER
            &&& effects.last() == Effect::CloseRecord { record: TAKE_ESCROW, destination: TAKE_MAKER }
        }),
{
    let effects = take_outcome(program_id, a)->Ok_0;
    let n = effects.len();
    let creations = effects.subrange(0, n - 4);
    let settlement = effects.subrange(n - 4, n as int);
    assert(effects =~= creations + settlement);
    lemma_creations_move_nothing(creations, account);
    lemma_net_token_flow_concat(creations, settlement, account);
    assert(settlement.drop_last().drop_last().drop_last().drop_last() =~= Seq::<Effect>::empty());
    reveal_with_fuel(net_token_flow, 5);
}

/// A successful Refund moves the vault's whole balance back to the maker's
/// asset-A account, and no other tokens; it closes the vault and then the
/// record, both to the maker.
pub proof fn lemma_refund_moves_balance(program_id: Seq<u8>, a: Seq<AccountState>, account: usize)
    requires
        refund_outcome(program_id, a) is Ok,
    ensures
        ({
            let effects = refund_outcome(program_id, a)->Ok_0;
            let held = token_amount(a[REFUND_VAULT as int].data@) as int;
            &&& net_token_flow(effects, account) == if account == REFUND_VAULT {
                -held
            } else if account == REFUND_MAKER_ATA_A {
                held
            } else {
                0
            }
            &&& effects.len() >= 2
            &&& effects[effects.len() - 2] is CloseTokenAccount
            &&& effects[effects.len() - 2]->CloseTokenAccount_account == REFUND_VAULT
            &&& effects[effects.len() - 2]->CloseTokenAccount_destination == REFUND_MAKER
            &&& effects.last() == Effect::CloseRecord { record: REFUND_ESCROW, destination: REFUND_MAKER }
        }),
{
    let effects = refund_outcome(program_id, a)->Ok_0;
    let n = effects.len();
    let creations = effects.subrange(0, n - 3);
    let settlement = effects.subrange(n - 3, n as int);
    assert(effects =~= creations + settlement);
    lemma_creations_move_nothing(creations, account);
    lemma_net_token_flow_concat(creations, settlement, account);
    assert(settlement.drop_last().drop_last().drop_last() =~= Seq::<Effect>::empty());
    reveal_with_fuel(net_token_flow, 4);
}

/// Make refuses a zero deposit and a zero price, with `InvalidAmount`,
/// whatever the seed, the program and the accounts.
pub proof fn lemma_make_rejects_zero(program_id: Seq<u8>, seed: u64, receive: u64, amount: u64, a: Seq<AccountState>)
    requires
        amount == 0 || receive == 0,
    ensures
        make_outcome(program_id, make_payload(seed, receive, amount), a) == Err::<Seq<Effect>, EscrowError>(
            EscrowError::InvalidAmount),
{
    lemma_auto_spec_u64_to_from_le_bytes();
    let d = make_payload(seed, receive, amount);
    assert(d.subrange(0, 8) =~= spec_u64_to_le_bytes(seed));
    assert(d.subrange(8, 16) =~= spec_u64_to_le_bytes(receive));
    assert(d.subrange(16, 24) =~= spec_u64_to_le_bytes(amount));
}

/// The bump that a search finds does derive the address it returns.
pub proof fn lemma_found_is_created(seeds: Seq<Seq<u8>>, program_id: Seq<u8>, bump: int)
    ensures
        found_program_address(seeds, program_id, bump) matches Some((addr, k))
            ==> created_program_address(seeds.push(seq![k]), program_id) == Some(addr),
    decreases bump,
{
    if 1 <= bump <= 255 {
        if created_program_address(seeds.push(seq![bump as u8]), program_id) is None {
            lemma_found_is_created(seeds, program_id, bump - 1);
        }
    }
}

/// A successful Make of a new record writes, just before the deposit, a record that holds the
/// maker, both mints, the seed and the price it was given, and a bump with
/// which the maker and seed re-derive the supplied escrow address: the
/// re-derivation that Take and Refund perform accepts it.
pub proof fn lemma_made_record_rederives(program_id: Seq<u8>, data: Seq<u8>, a: Seq<AccountState>)
    requires
        make_outcome(program_id, data, a) is Ok,
        a[MAKE_ESCROW as int].data@.len() == 0,
    ensures
        ({
            let effects = make_outcome(program_id, data, a)->Ok_0;
            let args = make_args(data)->Ok_0;
            &&& make_args(data) is Ok
            &&& effects.len() >= 2
            &&& exists|bump: u8| {
                &&& #[trigger] effects[effects.len() - 2] == Effect::WriteRecord {
                    record: MAKE_ESCROW,
                    escrow: made_record(args, a, bump),
                }
                &&& created_program_address(escrow_seed_list(a[MAKE_MAKER as int].address@, args.seed).push(seq![bump]),
                    program_id) == Some(a[MAKE_ESCROW as int].address@)
            }
        }),
{
    let args = make_args(data)->Ok_0;
    let seeds = escrow_seed_list(a[MAKE_MAKER as int].address@, args.seed);
    let (escrow, bump) = canonical_program_address(seeds, program_id)->Some_0;
    lemma_found_is_created(seeds, program_id, 255);
    let effects = make_outcome(program_id, data, a)->Ok_0;
    assert(effects[effects.len() - 2] == Effect::WriteRecord { record: MAKE_ESCROW, escrow: made_record(args, a, bump) });
}

/// Make on a record that already exists neither rewrites the record nor
/// moves any token: its terms stay as they were and no funds are deposited
/// twice.
pub proof fn lemma_make_existing_record_moves_nothing(program_id: Seq<u8>, data: Seq<u8>, a: Seq<AccountState>)
    requires
        make_outcome(program_id, data, a) is Ok,
        a[MAKE_ESCROW as int].data@.len() > 0,
    ensures
        forall|i: int| 0 <= i < make_outcome(program_id, data, a)->Ok_0.len() ==> {
            let e = #[trigger] make_outcome(program_id, data, a)->Ok_0[i];
            !(e is WriteRecord) && !(e is Transfer) && !(e is TransferChecked) && !(e is CreateRecord)
        },
{
}

/// The escrow address that a record's own maker, seed and bump derive is the
/// supplied one.
pub open spec fn record_derives(program_id: Seq<u8>, escrow: AccountState) -> bool {
    let rec = load_record(escrow.data@)->Ok_0;
    created_program_address(escrow_seed_list(rec.maker, rec.seed).push(seq![rec.bump]), program_id)
        == Some(escrow.address@)
}

/// Take with a maker account other than the record's maker fails, whatever
/// the token accounts hold, and so changes nothing: with the genuine escrow
/// the error is `InvalidMaker`, with a substituted one `DerivationMismatch`.
pub proof fn lemma_take_wrong_maker(program_id: Seq<u8>, a: Seq<AccountState>)
    requires
        a.len() >= TAKE_ACCOUNTS,
        a[TAKE_TAKER as int].is_signer,
        load_record(a[TAKE_ESCROW as int].data@) is Ok,
        a[TAKE_MAKER as int].address@ != load_record(a[TAKE_ESCROW as int].data@)->Ok_0.maker,
    ensures
        take_outcome(program_id, a) == Err::<Seq<Effect>, EscrowError>(
            if record_derives(program_id, a[TAKE_ESCROW as int]) {
                EscrowError::InvalidMaker
            } else {
                EscrowError::DerivationMismatch
            }),
{
}

/// Only the record's maker can refund: with any other signer in the maker's
/// place Refund fails, whatever the token accounts hold: with the genuine
/// escrow the error is `InvalidMaker`, with a substituted one
/// `DerivationMismatch`.
pub proof fn lemma_refund_wrong_maker(program_id: Seq<u8>, a: Seq<AccountState>)
    requires
        a.len() >= REFUND_ACCOUNTS,
        a[REFUND_MAKER as int].is_signer,
        load_record(a[REFUND_ESCROW as int].data@) is Ok,
        a[REFUND_MAKER as int].address@ != load_record(a[REFUND_ESCROW as int].data@)->Ok_0.maker,
    ensures
        refund_outcome(program_id, a) == Err::<Seq<Effect>, EscrowError>(
            if record_derives(program_id, a[REFUND_ESCROW as int]) {
                EscrowError::InvalidMaker
            } else {
                EscrowError::DerivationMismatch
            }),
{
}

/// A successful Take ends by terminating the record; a second Take with the
/// same accounts, once the record is closed, fails with
/// `UninitializedAccount`, so nothing is paid out twice.
pub proof fn lemma_take_twice(program_id: Seq<u8>, a: Seq<AccountState>, closed: AccountState)
    requires
        take_outcome(program_id, a) is Ok,
        is_closed(closed),
        closed.address == a[TAKE_ESCROW as int].address,
    ensures
        ({
            let effects = take_outcome(program_id, a)->Ok_0;
            effects.len() > 0 && effects.last() == Effect::CloseRecord { record: TAKE_ESCROW, destination: TAKE_MAKER }
        }),
        take_outcome(program_id, a.update(TAKE_ESCROW as int, closed)) == Err::<Seq<Effect>, EscrowError>(
            EscrowError::UninitializedAccount),
{
    let a2 = a.update(TAKE_ESCROW as int, closed);
    assert(a2[0] == a[0]);
}

/// Make fails whenever the supplied escrow address is not the canonical
/// derivation of the maker and seed; once the arguments and the other
/// accounts pass their checks, the error is `DerivationMismatch`.
pub proof fn lemma_make_wrong_escrow(program_id: Seq<u8>, data: Seq<u8>, a: Seq<AccountState>)
    requires
        make_args(data) is Ok,
        a.len() > MAKE_ESCROW,
        ({
            let d = canonical_program_address(escrow_seed_list(a[MAKE_MAKER as int].address@, make_args(data)->Ok_0.seed),
                program_id);
            d is None || d->Some_0.0 != a[MAKE_ESCROW as int].address@
        }),
    ensures
        make_outcome(program_id, data, a) is Err,
        make_accounts_check(a) is Ok ==> make_outcome(program_id, data, a) == Err::<Seq<Effect>, EscrowError>(
            EscrowError::DerivationMismatch),
{
}

/// Take with an escrow address that the record's maker, seed and bump do not
/// derive fails with `DerivationMismatch`, whatever the maker, the mints and
/// the token accounts are.
pub proof fn lemma_take_wrong_escrow(program_id: Seq<u8>, a: Seq<AccountState>)
    requires
        a.len() >= TAKE_ACCOUNTS,
        a[TAKE_TAKER as int].is_signer,
        load_record(a[TAKE_ESCROW as int].data@) is Ok,
        !record_derives(program_id, a[TAKE_ESCROW as int]),
    ensures
        take_outcome(program_id, a) == Err::<Seq<Effect>, EscrowError>(EscrowError::DerivationMismatch),
{
}

/// Refund with an escrow address that the record's maker, seed and bump do
/// not derive fails with `DerivationMismatch`, whatever the maker, the mint
/// and the token accounts are.
pub proof fn lemma_refund_wrong_escrow(program_id: Seq<u8>, a: Seq<AccountState>)
    requires
        a.len() >= REFUND_ACCOUNTS,
        a[REFUND_MAKER as int].is_signer,
        load_record(a[REFUND_ESCROW as int].data@) is Ok,
        !record_derives(program_id, a[REFUND_ESCROW as int]),
    ensures
        refund_outcome(program_id, a) == Err::<Seq<Effect>, EscrowError>(EscrowError::DerivationMismatch),
{
}

} // verus!

use vstd::prelude::*;
use crate::account::{effects_view, optional_effect, AccountState, Effect, EscrowSigner};
use crate::address::{address_eq, Address};
use crate::errors::EscrowError;
use crate::instructions::helpers::{
    check_custody, check_then, custody_check, existing_token_account_check, init_effect, mint_check,
    program_check, signer_check, token_account_check, token_amount, AssociatedTokenAccount, MintInterface,
    ProgramAccount, SignerAccount, TokenAccount, TOKEN_ACCOUNT_LEN,
};
use crate::state::{loaded_view, Escrow, EscrowView};

verus! {

/// Take's accounts, by position.
pub const TAKE_TAKER: usize = 0;
pub const TAKE_MAKER: usize = 1;
pub const TAKE_ESCROW: usize = 2;
pub const TAKE_MINT_A: usize = 3;
pub const TAKE_MINT_B: usize = 4;
pub const TAKE_VAULT: usize = 5;
pub const TAKE_TAKER_ATA_A: usize = 6;
pub const TAKE_TAKER_ATA_B: usize = 7;
pub const TAKE_MAKER_ATA_B: usize = 8;
pub const TAKE_SYSTEM_PROGRAM: usize = 9;
pub const TAKE_TOKEN_PROGRAM: usize = 10;
pub const TAKE_ACCOUNTS: usize = 11;

/// The record's checks that Take shares with Refund, then mint B against
/// the record.
pub open spec fn take_record_check(program_id: Seq<u8>, a: Seq<AccountState>) -> Result<EscrowView, EscrowError> {
    match custody_check(program_id, a[TAKE_MAKER as int], a[TAKE_ESCROW as int], a[TAKE_MINT_A as int],
        a[TAKE_VAULT as int]) {
        Err(e) => Err(e),
        Ok(rec) => if a[TAKE_MINT_B as int].address@ != rec.mint_b {
            Err(EscrowError::InvalidMintB)
        } else {
            Ok(rec)
        },
    }
}

/// The checks on Take's accounts, in this order: enough accounts, the taker
/// signs, the record exists; the record's checks (`take_record_check`), so
/// that a substituted escrow or a wrong maker is found whatever the token
/// accounts hold; both mints look like mints; the taker's asset-B account and
/// the vault are token accounts of the right mint and holder; and the
/// taker's asset-A account and the maker's asset-B account, where they
/// already exist, are too.
pub open spec fn take_accounts_check(program_id: Seq<u8>, a: Seq<AccountState>) -> Result<(), EscrowError> {
    if a.len() < TAKE_ACCOUNTS {
        Err(EscrowError::NotEnoughAccountKeys)
    } else {
        let taker = a[TAKE_TAKER as int].address@;
        let maker = a[TAKE_MAKER as int].address@;
        let escrow = a[TAKE_ESCROW as int].address@;
        let mint_a = a[TAKE_MINT_A as int].address@;
        let mint_b = a[TAKE_MINT_B as int].address@;
        check_then(signer_check(a[TAKE_TAKER as int]),
        check_then(program_check(a[TAKE_ESCROW as int]),
        match take_record_check(program_id, a) {
            Err(e) => Err(e),
            Ok(_) =>
                check_then(mint_check(a[TAKE_MINT_A as int]),
                check_then(mint_check(a[TAKE_MINT_B as int]),
                check_then(token_account_check(a[TAKE_TAKER_ATA_B as int], taker, mint_b),
                check_then(token_account_check(a[TAKE_VAULT as int], escrow, mint_a),
                check_then(existing_token_account_check(a[TAKE_TAKER_ATA_A as int], taker, mint_a, EscrowError::InvalidMintA),
                existing_token_account_check(a[TAKE_MAKER_ATA_B as int], maker, mint_b, EscrowError::InvalidMintB)))))),
        }))
    }
}

/// The creation of the taker's asset-A account, when it does not exist.
pub open spec fn taker_ata_a_creation() -> Effect {
    Effect::CreateTokenAccount { payer: TAKE_TAKER, account: TAKE_TAKER_ATA_A, wallet: TAKE_TAKER, mint: TAKE_MINT_A }
}

/// The creation of the maker's asset-B account, when it does not exist.
pub open spec fn maker_ata_b_creation() -> Effect {
    Effect::CreateTokenAccount { payer: TAKE_TAKER, account: TAKE_MAKER_ATA_B, wallet: TAKE_MAKER, mint: TAKE_MINT_B }
}

/// The token accounts that Take creates, in order.
pub open spec fn take_creations(a: Seq<AccountState>) -> Seq<Effect> {
    optional_effect(init_effect(a[TAKE_TAKER_ATA_A as int], taker_ata_a_creation()))
        + optional_effect(init_effect(a[TAKE_MAKER_ATA_B as int], maker_ata_b_creation()))
}

/// The settlement: the vault's whole balance to the taker and the vault
/// closed, both under the escrow's seeds; the price from the taker to the
/// maker on the taker's signature; the record terminated. All rent goes to
/// the maker.
pub open spec fn take_settlement(a: Seq<AccountState>, rec: EscrowView) -> Seq<Effect> {
    let signer = EscrowSigner { maker: a[TAKE_MAKER as int].address, seed: rec.seed, bump: rec.bump };
    seq![
        Effect::Transfer {
            from: TAKE_VAULT,
            to: TAKE_TAKER_ATA_A,
            authority: TAKE_ESCROW,
            amount: token_amount(a[TAKE_VAULT as int].data@),
            escrow_seeds: Some(signer),
        },
        Effect::CloseTokenAccount {
            account: TAKE_VAULT,
            destination: TAKE_MAKER,
            authority: TAKE_ESCROW,
            signer,
        },
        Effect::Transfer {
            from: TAKE_TAKER_ATA_B,
            to: TAKE_MAKER_ATA_B,
            authority: TAKE_TAKER,
            amount: rec.receive,
            escrow_seeds: None,
        },
        Effect::CloseRecord { record: TAKE_ESCROW, destination: TAKE_MAKER },
    ]
}

/// The record's part of Take: it must name the supplied maker and both
/// mints, and re-derive the supplied escrow and vault; then the settlement.
pub open spec fn take_settle(program_id: Seq<u8>, a: Seq<AccountState>) -> Result<Seq<Effect>, EscrowError> {
    if a.len() < TAKE_ACCOUNTS {
        Err(EscrowError::NotEnoughAccountKeys)
    } else {
        match take_record_check(program_id, a) {
            Err(e) => Err(e),
            Ok(rec) => if a[TAKE_VAULT as int].data@.len() < TOKEN_ACCOUNT_LEN {
                Err(EscrowError::InvalidAccountData)
            } else {
                Ok(take_settlement(a, rec))
            },
        }
    }
}

/// The whole of Take: the account checks, then the record's part; the
/// creations come first among the effects.
pub open spec fn take_outcome(program_id: Seq<u8>, a: Seq<AccountState>) -> Result<Seq<Effect>, EscrowError> {
    check_then(take_accounts_check(program_id, a),
        match take_settle(program_id, a) {
            Err(e) => Err(e),
            Ok(s) => Ok(take_creations(a) + s),
        })
}

/// Runs `take_record_check`.
pub fn check_take_record(program_id: &Address, accounts: &[AccountState]) -> (r: Result<Escrow, EscrowError>)
    requires
        accounts@.len() >= TAKE_ACCOUNTS,
    ensures
        loaded_view(r) == take_record_check(program_id@, accounts@),
{
    let escrow = match check_custody(program_id, &accounts[TAKE_MAKER], &accounts[TAKE_ESCROW],
        &accounts[TAKE_MINT_A], &accounts[TAKE_VAULT]) {
        Err(e) => return Err(e),
        Ok(rec) => rec,
    };
    if !address_eq(&accounts[TAKE_MINT_B].address, &escrow.mint_b) {
        return Err(EscrowError::InvalidMintB);
    }
    Ok(escrow)
}

/// Take's accounts after their checks.
pub struct TakeAccounts<'a> {
    pub accounts: &'a [AccountState],
}

impl<'a> TakeAccounts<'a> {
    /// Checks Take's accounts and the record, as `take_accounts_check` says.
    pub fn try_from_accounts(program_id: &Address, accounts: &'a [AccountState]) -> (r: Result<TakeAccounts<'a>, EscrowError>)
        ensures
            take_accounts_check(program_id@, accounts@) is Err ==> r == Err::<TakeAccounts<'a>, EscrowError>(
                take_accounts_check(program_id@, accounts@)->Err_0),
            take_accounts_check(program_id@, accounts@) is Ok ==> (r matches Ok(t) && t.accounts@ == accounts@),
    {
        if accounts.len() < TAKE_ACCOUNTS {
            return Err(EscrowError::NotEnoughAccountKeys);
        }
        let taker = &accounts[TAKE_TAKER];
        let maker = &accounts[TAKE_MAKER];
        let escrow = &accounts[TAKE_ESCROW];
        let mint_a = &accounts[TAKE_MINT_A];
        let mint_b = &accounts[TAKE_MINT_B];
        if let Err(e) = SignerAccount::check(taker) {
            return Err(e);
        }
        if let Err(e) = ProgramAccount::check(escrow) {
            return Err(e);
        }
        if let Err(e) = check_take_record(program_id, accounts) {
            return Err(e);
        }
        if let Err(e) = MintInterface::check(mint_a) {
            return Err(e);
        }
        if let Err(e) = MintInterface::check(mint_b) {
            return Err(e);
        }
        if let Err(e) = AssociatedTokenAccount::check(&accounts[TAKE_TAKER_ATA_B], taker, mint_b) {
            return Err(e);
        }
        if let Err(e) = AssociatedTokenAccount::check(&accounts[TAKE_VAULT], escrow, mint_a) {
            return Err(e);
        }
        if let Err(e) = AssociatedTokenAccount::check_if_exists(&accounts[TAKE_TAKER_ATA_A], taker, mint_a,
            EscrowError::InvalidMintA) {
            return Err(e);
        }
        if let Err(e) = AssociatedTokenAccount::check_if_exists(&accounts[TAKE_MAKER_ATA_B], maker, mint_b,
            EscrowError::InvalidMintB) {
            return Err(e);
        }
        Ok(TakeAccounts { accounts })
    }
}

/// A Take whose accounts passed their checks, with the token accounts that it
/// creates.
pub struct Take<'a> {
    pub accounts: TakeAccounts<'a>,
    pub creations: Vec<Effect>,
}

impl<'a> Take<'a> {
    /// Checks Take's accounts and lists the creation of the taker's asset-A
    /// account and of the maker's asset-B account, where they do not exist.
    pub fn try_from_accounts(program_id: &Address, accounts: &'a [AccountState]) -> (r: Result<Take<'a>, EscrowError>)
        ensures
            take_accounts_check(program_id@, accounts@) is Err ==> r == Err::<Take<'a>, EscrowError>(
                take_accounts_check(program_id@, accounts@)->Err_0),
            take_accounts_check(program_id@, accounts@) is Ok ==> (r matches Ok(t) && t.accounts.accounts@ == accounts@
                && t.creations@ == take_creations(accounts@)),
    {
        let checked = match TakeAccounts::try_from_accounts(program_id, accounts) {
            Err(e) => return Err(e),
            Ok(t) => t,
        };
        let create_a = AssociatedTokenAccount::init_if_needed(accounts, TAKE_TAKER, TAKE_TAKER_ATA_A, TAKE_TAKER,
            TAKE_MINT_A);
        let create_b = AssociatedTokenAccount::init_if_needed(accounts, TAKE_TAKER, TAKE_MAKER_ATA_B, TAKE_MAKER,
            TAKE_MINT_B);
        let mut creations: Vec<Effect> = Vec::new();
        if let Some(c) = create_a {
            creations.push(c);
        }
        if let Some(c) = create_b {
            creations.push(c);
        }
        assert(creations@ =~= take_creations(accounts@));
        Ok(Take { accounts: checked, creations })
    }

    /// Loads the record, checks it against the supplied maker, mints, escrow
    /// and vault, and gives the effects: the creations, then the settlement.
    /// No effect is given when a check fails.
    pub fn process(&self, program_id: &Address) -> (r: Result<Vec<Effect>, EscrowError>)
        ensures
            ({
                let s = take_settle(program_id@, self.accounts.accounts@);
                match s {
                    Err(e) => r == Err::<Vec<Effect>, EscrowError>(e),
                    Ok(settlement) => (r matches Ok(v) && v@ == self.creations@ + settlement),
                }
            }),
    {
        let accounts = self.accounts.accounts;
        if accounts.len() < TAKE_ACCOUNTS {
            return Err(EscrowError::NotEnoughAccountKeys);
        }
        let escrow = match check_take_record(program_id, accounts) {
            Err(e) => return Err(e),
            Ok(rec) => rec,
        };
        let vault_amount = match TokenAccount::from_account_info(&accounts[TAKE_VAULT]) {
            Err(e) => return Err(e),
            Ok(t) => t.amount(),
        };
        let mut effects: Vec<Effect> = Vec::new();
        let mut i: usize = 0;
        while i < self.creations.len()
            invariant
                i <= self.creations@.len(),
                effects@ == self.creations@.subrange(0, i as int),
            decreases self.creations@.len() - i,
        {
            effects.push(self.creations[i]);
            i = i + 1;
            assert(effects@ =~= self.creations@.subrange(0, i as int));
        }
        let signer = EscrowSigner { maker: accounts[TAKE_MAKER].address, seed: escrow.seed, bump: escrow.bump };
        effects.push(Effect::Transfer {
            from: TAKE_VAULT,
            to: TAKE_TAKER_ATA_A,
            authority: TAKE_ESCROW,
            amount: vault_amount,
            escrow_seeds: Some(signer),
        });
        effects.push(Effect::CloseTokenAccount {
            account: TAKE_VAULT,
            destination: TAKE_MAKER,
            authority: TAKE_ESCROW,
            signer,
        });
        effects.push(Effect::Transfer {
            from: TAKE_TAKER_ATA_B,
            to: TAKE_MAKER_ATA_B,
            authority: TAKE_TAKER,
            amount: escrow.receive,
            escrow_seeds: None,
        });
        effects.push(Effect::CloseRecord { record: TAKE_ESCROW, destination: TAKE_MAKER });
        assert(effects@ =~= self.creations@ + take_settlement(accounts@, escrow@));
        Ok(effects)
    }
}

/// Take: the taker at position 0 settles the escrow, for the program `program_id`.
pub fn take(program_id: &Address, accounts: &[AccountState]) -> (r: Result<Vec<Effect>, EscrowError>)
    ensures
        effects_view(r) == take_outcome(program_id@, accounts@),
{
    match Take::try_from_accounts(program_id, accounts) {
        Err(e) => Err(e),
        Ok(take_ix) => take_ix.process(program_id),
    }
}

} // verus!

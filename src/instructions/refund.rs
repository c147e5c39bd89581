use vstd::prelude::*;
use crate::account::{effects_view, optional_effect, AccountState, Effect, EscrowSigner};
use crate::address::Address;
use crate::errors::EscrowError;
use crate::instructions::helpers::{
    check_custody, check_then, custody_check, existing_token_account_check, init_effect, mint_check,
    mint_decimals, program_check, signer_check, token_account_check, token_amount, AssociatedTokenAccount,
    MintInterface, ProgramAccount, SignerAccount, TokenAccount, MINT_LEN, TOKEN_ACCOUNT_LEN,
};
use crate::state::EscrowView;

verus! {

/// Refund's accounts, by position.
pub const REFUND_MAKER: usize = 0;
pub const REFUND_ESCROW: usize = 1;
pub const REFUND_MINT_A: usize = 2;
pub const REFUND_VAULT: usize = 3;
pub const REFUND_MAKER_ATA_A: usize = 4;
pub const REFUND_SYSTEM_PROGRAM: usize = 5;
pub const REFUND_TOKEN_PROGRAM: usize = 6;
pub const REFUND_ACCOUNTS: usize = 7;

/// The checks on Refund's accounts, in this order: enough accounts, the
/// maker signs, the record exists; the record's checks (`custody_check`), so
/// that a substituted escrow or a signer other than the record's maker is
/// found whatever the token accounts hold; asset A's mint looks like a mint;
/// the vault is a token account of asset A held by the escrow; and the
/// maker's asset-A account, where it already exists, is one held by the maker.
pub open spec fn refund_accounts_check(program_id: Seq<u8>, a: Seq<AccountState>) -> Result<(), EscrowError> {
    if a.len() < REFUND_ACCOUNTS {
        Err(EscrowError::NotEnoughAccountKeys)
    } else {
        let mint_a = a[REFUND_MINT_A as int].address@;
        check_then(signer_check(a[REFUND_MAKER as int]),
        check_then(program_check(a[REFUND_ESCROW as int]),
        match custody_check(program_id, a[REFUND_MAKER as int], a[REFUND_ESCROW as int], a[REFUND_MINT_A as int],
            a[REFUND_VAULT as int]) {
            Err(e) => Err(e),
            Ok(_) =>
                check_then(mint_check(a[REFUND_MINT_A as int]),
                check_then(token_account_check(a[REFUND_VAULT as int], a[REFUND_ESCROW as int].address@, mint_a),
                existing_token_account_check(a[REFUND_MAKER_ATA_A as int], a[REFUND_MAKER as int].address@, mint_a,
                    EscrowError::InvalidMintA))),
        }))
    }
}

/// The creation of the maker's asset-A account, when it does not exist.
pub open spec fn maker_ata_a_creation() -> Effect {
    Effect::CreateTokenAccount {
        payer: REFUND_MAKER,
        account: REFUND_MAKER_ATA_A,
        wallet: REFUND_MAKER,
        mint: REFUND_MINT_A,
    }
}

/// The token account that Refund creates, if any.
pub open spec fn refund_creations(a: Seq<AccountState>) -> Seq<Effect> {
    optional_effect(init_effect(a[REFUND_MAKER_ATA_A as int], maker_ata_a_creation()))
}

/// The teardown: the vault's whole balance back to the maker by a checked
/// transfer that names asset A's mint and its decimals, and the vault
/// closed, both under the escrow's seeds; the record terminated. All rent
/// goes to the maker.
pub open spec fn refund_settlement(a: Seq<AccountState>, rec: EscrowView) -> Seq<Effect> {
    let signer = EscrowSigner { maker: a[REFUND_MAKER as int].address, seed: rec.seed, bump: rec.bump };
    seq![
        Effect::TransferChecked {
            from: REFUND_VAULT,
            mint: REFUND_MINT_A,
            to: REFUND_MAKER_ATA_A,
            authority: REFUND_ESCROW,
            amount: token_amount(a[REFUND_VAULT as int].data@),
            decimals: mint_decimals(a[REFUND_MINT_A as int].data@),
            escrow_seeds: signer,
        },
        Effect::CloseTokenAccount {
            account: REFUND_VAULT,
            destination: REFUND_MAKER,
            authority: REFUND_ESCROW,
            signer,
        },
        Effect::CloseRecord { record: REFUND_ESCROW, destination: REFUND_MAKER },
    ]
}

/// The record's part of Refund: it must name the supplied maker and asset-A
/// mint, and re-derive the supplied escrow and vault; then the teardown.
pub open spec fn refund_settle(program_id: Seq<u8>, a: Seq<AccountState>) -> Result<Seq<Effect>, EscrowError> {
    if a.len() < REFUND_ACCOUNTS {
        Err(EscrowError::NotEnoughAccountKeys)
    } else {
        match custody_check(program_id, a[REFUND_MAKER as int], a[REFUND_ESCROW as int], a[REFUND_MINT_A as int],
            a[REFUND_VAULT as int]) {
            Err(e) => Err(e),
            Ok(rec) => if a[REFUND_VAULT as int].data@.len() < TOKEN_ACCOUNT_LEN
                || a[REFUND_MINT_A as int].data@.len() < MINT_LEN {
                Err(EscrowError::InvalidAccountData)
            } else {
                Ok(refund_settlement(a, rec))
            },
        }
    }
}

/// The whole of Refund: the account checks, then the record's part; the
/// creation comes first among the effects.
pub open spec fn refund_outcome(program_id: Seq<u8>, a: Seq<AccountState>) -> Result<Seq<Effect>, EscrowError> {
    check_then(refund_accounts_check(program_id, a),
        match refund_settle(program_id, a) {
            Err(e) => Err(e),
            Ok(s) => Ok(refund_creations(a) + s),
        })
}

/// Refund's accounts after their checks.
pub struct RefundAccounts<'a> {
    pub accounts: &'a [AccountState],
}

impl<'a> RefundAccounts<'a> {
    /// Checks Refund's accounts and the record, as `refund_accounts_check` says.
    pub fn try_from_accounts(program_id: &Address, accounts: &'a [AccountState]) -> (r: Result<RefundAccounts<'a>, EscrowError>)
        ensures
            refund_accounts_check(program_id@, accounts@) is Err ==> r == Err::<RefundAccounts<'a>, EscrowError>(
                refund_accounts_check(program_id@, accounts@)->Err_0),
            refund_accounts_check(program_id@, accounts@) is Ok ==> (r matches Ok(t) && t.accounts@ == accounts@),
    {
        if accounts.len() < REFUND_ACCOUNTS {
            return Err(EscrowError::NotEnoughAccountKeys);
        }
        let maker = &accounts[REFUND_MAKER];
        let escrow = &accounts[REFUND_ESCROW];
        let mint_a = &accounts[REFUND_MINT_A];
        if let Err(e) = SignerAccount::check(maker) {
            return Err(e);
        }
        if let Err(e) = ProgramAccount::check(escrow) {
            return Err(e);
        }
        if let Err(e) = check_custody(program_id, maker, escrow, mint_a, &accounts[REFUND_VAULT]) {
            return Err(e);
        }
        if let Err(e) = MintInterface::check(mint_a) {
            return Err(e);
        }
        if let Err(e) = AssociatedTokenAccount::check(&accounts[REFUND_VAULT], escrow, mint_a) {
            return Err(e);
        }
        if let Err(e) = AssociatedTokenAccount::check_if_exists(&accounts[REFUND_MAKER_ATA_A], maker, mint_a,
            EscrowError::InvalidMintA) {
            return Err(e);
        }
        Ok(RefundAccounts { accounts })
    }
}

/// A Refund whose accounts passed their checks, with the token account that
/// it creates.
pub struct Refund<'a> {
    pub accounts: RefundAccounts<'a>,
    pub creations: Vec<Effect>,
}

impl<'a> Refund<'a> {
    /// Checks Refund's accounts and lists the creation of the maker's asset-A
    /// account, where it does not exist.
    pub fn try_from_accounts(program_id: &Address, accounts: &'a [AccountState]) -> (r: Result<Refund<'a>, EscrowError>)
        ensures
            refund_accounts_check(program_id@, accounts@) is Err ==> r == Err::<Refund<'a>, EscrowError>(
                refund_accounts_check(program_id@, accounts@)->Err_0),
            refund_accounts_check(program_id@, accounts@) is Ok ==> (r matches Ok(t) && t.accounts.accounts@ == accounts@
                && t.creations@ == refund_creations(accounts@)),
    {
        let checked = match RefundAccounts::try_from_accounts(program_id, accounts) {
            Err(e) => return Err(e),
            Ok(t) => t,
        };
        let create = AssociatedTokenAccount::init_if_needed(accounts, REFUND_MAKER, REFUND_MAKER_ATA_A,
            REFUND_MAKER, REFUND_MINT_A);
        let mut creations: Vec<Effect> = Vec::new();
        if let Some(c) = create {
            creations.push(c);
        }
        assert(creations@ =~= refund_creations(accounts@));
        Ok(Refund { accounts: checked, creations })
    }

    /// Loads the record, checks it against the supplied maker, mint, escrow
    /// and vault, and gives the effects: the creation, then the teardown.
    /// No effect is given when a check fails.
    pub fn process(&self, program_id: &Address) -> (r: Result<Vec<Effect>, EscrowError>)
        ensures
            ({
                let s = refund_settle(program_id@, self.accounts.accounts@);
                match s {
                    Err(e) => r == Err::<Vec<Effect>, EscrowError>(e),
                    Ok(settlement) => (r matches Ok(v) && v@ == self.creations@ + settlement),
                }
            }),
    {
        let accounts = self.accounts.accounts;
        if accounts.len() < REFUND_ACCOUNTS {
            return Err(EscrowError::NotEnoughAccountKeys);
        }
        let escrow = match check_custody(program_id, &accounts[REFUND_MAKER], &accounts[REFUND_ESCROW],
            &accounts[REFUND_MINT_A], &accounts[REFUND_VAULT]) {
            Err(e) => return Err(e),
            Ok(rec) => rec,
        };
        let vault_amount = match TokenAccount::from_account_info(&accounts[REFUND_VAULT]) {
            Err(e) => return Err(e),
            Ok(t) => t.amount(),
        };
        let decimals = match MintInterface::decimals(&accounts[REFUND_MINT_A]) {
            Err(e) => return Err(e),
            Ok(d) => d,
        };
        let mut effects: Vec<Effect> = Vec::new();
        let mut i: usize = 0;
        while i < self.creations.len()
            invariant
                i <= self.creations@.len(),
                effects@ == self.creations@.subrange(0, i as int),
            decreases self.creations@.len() - i,
        {
            effects.push(self.creations[i]);
            i = i + 1;
            assert(effects@ =~= self.creations@.subrange(0, i as int));
        }
        let signer = EscrowSigner { maker: accounts[REFUND_MAKER].address, seed: escrow.seed, bump: escrow.bump };
        effects.push(Effect::TransferChecked {
            from: REFUND_VAULT,
            mint: REFUND_MINT_A,
            to: REFUND_MAKER_ATA_A,
            authority: REFUND_ESCROW,
            amount: vault_amount,
            decimals,
            escrow_seeds: signer,
        });
        effects.push(Effect::CloseTokenAccount {
            account: REFUND_VAULT,
            destination: REFUND_MAKER,
            authority: REFUND_ESCROW,
            signer,
        });
        effects.push(Effect::CloseRecord { record: REFUND_ESCROW, destination: REFUND_MAKER });
        assert(effects@ =~= self.creations@ + refund_settlement(accounts@, escrow@));
        Ok(effects)
    }
}

/// Refund: the maker at position 0 cancels the escrow and takes the deposit
/// back, for the program `program_id`.
pub fn refund(program_id: &Address, accounts: &[AccountState]) -> (r: Result<Vec<Effect>, EscrowError>)
    ensures
        effects_view(r) == refund_outcome(program_id@, accounts@),
{
    match Refund::try_from_accounts(program_id, accounts) {
        Err(e) => Err(e),
        Ok(refund_ix) => refund_ix.process(program_id),
    }
}

} // verus!

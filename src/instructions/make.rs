use vstd::prelude::*;
use vstd::bytes::{spec_u64_from_le_bytes, u64_from_le_bytes};
use crate::account::{effects_view, AccountState, Effect, EscrowSigner};
use crate::address::{
    address_eq, canonical_program_address, derive_escrow, derive_vault, escrow_seed_list, vault_seed_list,
    Address,
};
use crate::errors::EscrowError;
use crate::instructions::helpers::{
    check_then, mint_check, signer_check, token_account_check, AssociatedTokenAccount, MintInterface,
    ProgramAccount, SignerAccount,
};
use crate::state::{Escrow, ESCROW_LEN};

verus! {

/// Length of Make's payload: seed, receive and amount, each a little-endian u64.
pub const MAKE_DATA_LEN: usize = 24;

/// Make's accounts, by position.
pub const MAKE_MAKER: usize = 0;
pub const MAKE_ESCROW: usize = 1;
pub const MAKE_MINT_A: usize = 2;
pub const MAKE_MINT_B: usize = 3;
pub const MAKE_MAKER_ATA_A: usize = 4;
pub const MAKE_VAULT: usize = 5;
pub const MAKE_SYSTEM_PROGRAM: usize = 6;
pub const MAKE_TOKEN_PROGRAM: usize = 7;
pub const MAKE_ACCOUNTS: usize = 8;

/// Make's arguments.
#[derive(Debug, Clone, Copy, PartialEq, Eq)]
pub struct MakeInstructionData {
    pub seed: u64,
    pub receive: u64,
    pub amount: u64,
}

/// The payload read as three little-endian integers; refused when it is not
/// exactly 24 bytes, or when the price or the deposit is zero.
pub open spec fn make_args(data: Seq<u8>) -> Result<MakeInstructionData, EscrowError> {
    if data.len() != MAKE_DATA_LEN {
        Err(EscrowError::InvalidInstructionData)
    } else {
        let seed = spec_u64_from_le_bytes(data.subrange(0, 8));
        let receive = spec_u64_from_le_bytes(data.subrange(8, 16));
        let amount = spec_u64_from_le_bytes(data.subrange(16, 24));
        if amount == 0 || receive == 0 {
            Err(EscrowError::InvalidAmount)
        } else {
            Ok(MakeInstructionData { seed, receive, amount })
        }
    }
}

/// The checks on Make's accounts that need no derivation: enough accounts,
/// the maker signs, two mints that differ, and the maker's asset-A account.
pub open spec fn make_accounts_check(a: Seq<AccountState>) -> Result<(), EscrowError> {
    if a.len() < MAKE_ACCOUNTS {
        Err(EscrowError::NotEnoughAccountKeys)
    } else {
        check_then(signer_check(a[MAKE_MAKER as int]),
        check_then(mint_check(a[MAKE_MINT_A as int]),
        check_then(mint_check(a[MAKE_MINT_B as int]),
        if a[MAKE_MINT_A as int].address@ == a[MAKE_MINT_B as int].address@ {
            Err(EscrowError::InvalidMintB)
        } else {
            token_account_check(a[MAKE_MAKER_ATA_A as int], a[MAKE_MAKER as int].address@,
                a[MAKE_MINT_A as int].address@)
        })))
    }
}

/// The record's creation, when it does not exist yet.
pub open spec fn record_creation(a: Seq<AccountState>, signer: EscrowSigner) -> Result<Seq<Effect>, EscrowError> {
    let len = a[MAKE_ESCROW as int].data@.len();
    if len == 0 {
        Ok(seq![Effect::CreateRecord { payer: MAKE_MAKER, record: MAKE_ESCROW, space: ESCROW_LEN as u64, signer }])
    } else if len < ESCROW_LEN {
        Err(EscrowError::InvalidAccountData)
    } else {
        Ok(Seq::empty())
    }
}

/// The vault's creation, when it does not exist yet; an existing vault must
/// be a token account of asset A held by the escrow.
pub open spec fn vault_creation(a: Seq<AccountState>, vault_bump: u8) -> Result<Seq<Effect>, EscrowError> {
    if a[MAKE_VAULT as int].data@.len() == 0 {
        Ok(seq![Effect::CreateVault {
            payer: MAKE_MAKER,
            vault: MAKE_VAULT,
            mint: MAKE_MINT_A,
            authority: MAKE_ESCROW,
            bump: vault_bump,
        }])
    } else {
        check_then(token_account_check(a[MAKE_VAULT as int], a[MAKE_ESCROW as int].address@,
            a[MAKE_MINT_A as int].address@), Ok(Seq::empty()))
    }
}

/// What Make does once its arguments and accounts passed their checks: the
/// supplied escrow and vault must be the canonical derived addresses; then
/// the missing accounts are created and, for a new record, the record is
/// written and the deposit moved.
pub open spec fn make_plan(program_id: Seq<u8>, args: MakeInstructionData, a: Seq<AccountState>) -> Result<Seq<Effect>, EscrowError> {
    match canonical_program_address(escrow_seed_list(a[MAKE_MAKER as int].address@, args.seed), program_id) {
        None => Err(EscrowError::DerivationMismatch),
        Some((escrow, bump)) => if escrow != a[MAKE_ESCROW as int].address@ {
            Err(EscrowError::DerivationMismatch)
        } else {
            match canonical_program_address(vault_seed_list(escrow), program_id) {
                None => Err(EscrowError::DerivationMismatch),
                Some((vault, vault_bump)) => if vault != a[MAKE_VAULT as int].address@ {
                    Err(EscrowError::DerivationMismatch)
                } else {
                    let signer = EscrowSigner { maker: a[MAKE_MAKER as int].address, seed: args.seed, bump };
                    match record_creation(a, signer) {
                        Err(e) => Err(e),
                        Ok(r) => match vault_creation(a, vault_bump) {
                            Err(e) => Err(e),
                            Ok(v) => Ok(r + v + make_settlement_if_new(args, a, bump)),
                        },
                    }
                },
            }
        },
    }
}

/// The record's terms that Make writes.
pub open spec fn made_record(args: MakeInstructionData, a: Seq<AccountState>, bump: u8) -> Escrow {
    Escrow {
        seed: args.seed,
        maker: a[MAKE_MAKER as int].address,
        mint_a: a[MAKE_MINT_A as int].address,
        mint_b: a[MAKE_MINT_B as int].address,
        receive: args.receive,
        bump,
    }
}

/// Writing the record, then moving the deposit into the vault on the maker's
/// own signature.
pub open spec fn make_settlement(args: MakeInstructionData, a: Seq<AccountState>, bump: u8) -> Seq<Effect> {
    seq![
        Effect::WriteRecord { record: MAKE_ESCROW, escrow: made_record(args, a, bump) },
        Effect::Transfer {
            from: MAKE_MAKER_ATA_A,
            to: MAKE_VAULT,
            authority: MAKE_MAKER,
            amount: args.amount,
            escrow_seeds: None,
        },
    ]
}

/// The settlement when the record is new; a record that already exists is
/// neither rewritten nor funded again.
pub open spec fn make_settlement_if_new(args: MakeInstructionData, a: Seq<AccountState>, bump: u8) -> Seq<Effect> {
    if a[MAKE_ESCROW as int].data@.len() == 0 {
        make_settlement(args, a, bump)
    } else {
        Seq::empty()
    }
}

/// The whole of Make: arguments first, then accounts, then derivations.
pub open spec fn make_outcome(program_id: Seq<u8>, data: Seq<u8>, a: Seq<AccountState>) -> Result<Seq<Effect>, EscrowError> {
    match make_args(data) {
        Err(e) => Err(e),
        Ok(args) => check_then(make_accounts_check(a), make_plan(program_id, args, a)),
    }
}

impl MakeInstructionData {
    /// Parses Make's payload.
    pub fn try_from_bytes(data: &[u8]) -> (r: Result<MakeInstructionData, EscrowError>)
        ensures
            r == make_args(data@),
    {
        if data.len() != MAKE_DATA_LEN {
            return Err(EscrowError::InvalidInstructionData);
        }
        let seed = u64_from_le_bytes(vstd::slice::slice_subrange(data, 0, 8));
        let receive = u64_from_le_bytes(vstd::slice::slice_subrange(data, 8, 16));
        let amount = u64_from_le_bytes(vstd::slice::slice_subrange(data, 16, 24));
        if amount == 0 || receive == 0 {
            return Err(EscrowError::InvalidAmount);
        }
        Ok(MakeInstructionData { seed, receive, amount })
    }
}

/// Make's accounts after their checks.
pub struct MakeAccounts<'a> {
    pub accounts: &'a [AccountState],
}

impl<'a> MakeAccounts<'a> {
    /// Checks Make's accounts, as `make_accounts_check` says.
    pub fn try_from_accounts(accounts: &'a [AccountState]) -> (r: Result<MakeAccounts<'a>, EscrowError>)
        ensures
            make_accounts_check(accounts@) is Err ==> r == Err::<MakeAccounts<'a>, EscrowError>(
                make_accounts_check(accounts@)->Err_0),
            make_accounts_check(accounts@) is Ok ==> (r matches Ok(m) && m.accounts@ == accounts@),
    {
        if accounts.len() < MAKE_ACCOUNTS {
            return Err(EscrowError::NotEnoughAccountKeys);
        }
        let maker = &accounts[MAKE_MAKER];
        let mint_a = &accounts[MAKE_MINT_A];
        let mint_b = &accounts[MAKE_MINT_B];
        if let Err(e) = SignerAccount::check(maker) {
            return Err(e);
        }
        if let Err(e) = MintInterface::check(mint_a) {
            return Err(e);
        }
        if let Err(e) = MintInterface::check(mint_b) {
            return Err(e);
        }
        if address_eq(&mint_a.address, &mint_b.address) {
            return Err(EscrowError::InvalidMintB);
        }
        if let Err(e) = AssociatedTokenAccount::check(&accounts[MAKE_MAKER_ATA_A], maker, mint_a) {
            return Err(e);
        }
        Ok(MakeAccounts { accounts })
    }
}

/// A Make whose checks and derivations passed, with the creations it needs.
pub struct Make<'a> {
    pub accounts: MakeAccounts<'a>,
    pub instruction_data: MakeInstructionData,
    pub bump: u8,
    pub creations: Vec<Effect>,
    /// Whether the record is created by this Make (else it already existed).
    pub new_record: bool,
}

impl<'a> Make<'a> {
    /// All of Make's checks and derivations, and the creations it needs.
    pub fn try_from_parts(program_id: &Address, data: &[u8], accounts: &'a [AccountState]) -> (r: Result<Make<'a>, EscrowError>)
        ensures
            make_outcome(program_id@, data@, accounts@) is Err ==> r == Err::<Make<'a>, EscrowError>(
                make_outcome(program_id@, data@, accounts@)->Err_0),
            make_outcome(program_id@, data@, accounts@) is Ok ==> (r matches Ok(m)
                && m.accounts.accounts@ == accounts@
                && make_args(data@) == Ok::<MakeInstructionData, EscrowError>(m.instruction_data)
                && m.new_record == (accounts@[MAKE_ESCROW as int].data@.len() == 0)
                && make_outcome(program_id@, data@, accounts@)->Ok_0
                    == m.creations@ + make_settlement_if_new(m.instruction_data, accounts@, m.bump)),
    {
        let instruction_data = match MakeInstructionData::try_from_bytes(data) {
            Err(e) => return Err(e),
            Ok(d) => d,
        };
        let checked = match MakeAccounts::try_from_accounts(accounts) {
            Err(e) => return Err(e),
            Ok(m) => m,
        };
        let maker = &accounts[MAKE_MAKER];
        let escrow = &accounts[MAKE_ESCROW];
        let (escrow_key, bump) = match derive_escrow(&maker.address, instruction_data.seed, program_id) {
            None => return Err(EscrowError::DerivationMismatch),
            Some(found) => found,
        };
        if !address_eq(&escrow_key, &escrow.address) {
            return Err(EscrowError::DerivationMismatch);
        }
        let (vault_key, vault_bump) = match derive_vault(&escrow.address, program_id) {
            None => return Err(EscrowError::DerivationMismatch),
            Some(found) => found,
        };
        if !address_eq(&vault_key, &accounts[MAKE_VAULT].address) {
            return Err(EscrowError::DerivationMismatch);
        }
        let signer = EscrowSigner { maker: maker.address, seed: instruction_data.seed, bump };
        let mut creations: Vec<Effect> = Vec::new();
        match ProgramAccount::init(accounts, MAKE_MAKER, MAKE_ESCROW, ESCROW_LEN, signer) {
            Err(e) => return Err(e),
            Ok(Some(effect)) => creations.push(effect),
            Ok(None) => {},
        }
        if accounts[MAKE_VAULT].data.len() == 0 {
            creations.push(Effect::CreateVault {
                payer: MAKE_MAKER,
                vault: MAKE_VAULT,
                mint: MAKE_MINT_A,
                authority: MAKE_ESCROW,
                bump: vault_bump,
            });
        } else if let Err(e) = AssociatedTokenAccount::check(&accounts[MAKE_VAULT], escrow, &accounts[MAKE_MINT_A]) {
            return Err(e);
        }
        let ghost rec = record_creation(accounts@, signer);
        let ghost vlt = vault_creation(accounts@, vault_bump);
        assert(rec is Ok && vlt is Ok);
        assert(creations@ =~= rec->Ok_0 + vlt->Ok_0);
        let new_record = escrow.data.len() == 0;
        Ok(Make { accounts: checked, instruction_data, bump, creations, new_record })
    }

    /// The effects of a Make that passed its checks: the creations, then, for
    /// a new record, the record's write and the deposit.
    pub fn process(&self) -> (r: Vec<Effect>)
        requires
            self.accounts.accounts@.len() >= MAKE_ACCOUNTS,
            self.new_record == (self.accounts.accounts@[MAKE_ESCROW as int].data@.len() == 0),
        ensures
            r@ == self.creations@ + make_settlement_if_new(self.instruction_data, self.accounts.accounts@, self.bump),
    {
        let accounts = self.accounts.accounts;
        let mut effects: Vec<Effect> = Vec::new();
        let mut i: usize = 0;
        while i < self.creations.len()
            invariant
                i <= self.creations@.len(),
                effects@ == self.creations@.subrange(0, i as int),
            decreases self.creations@.len() - i,
        {
            effects.push(self.creations[i]);
            i = i + 1;
            assert(effects@ =~= self.creations@.subrange(0, i as int));
        }
        if !self.new_record {
            assert(effects@ =~= self.creations@ + make_settlement_if_new(self.instruction_data, accounts@, self.bump));
            return effects;
        }
        let escrow = Escrow {
            seed: self.instruction_data.seed,
            maker: accounts[MAKE_MAKER].address,
            mint_a: accounts[MAKE_MINT_A].address,
            mint_b: accounts[MAKE_MINT_B].address,
            receive: self.instruction_data.receive,
            bump: self.bump,
        };
        effects.push(Effect::WriteRecord { record: MAKE_ESCROW, escrow });
        effects.push(Effect::Transfer {
            from: MAKE_MAKER_ATA_A,
            to: MAKE_VAULT,
            authority: MAKE_MAKER,
            amount: self.instruction_data.amount,
            escrow_seeds: None,
        });
        assert(effects@ =~= self.creations@ + make_settlement_if_new(self.instruction_data, accounts@, self.bump));
        effects
    }
}

/// Make: opens an escrow for the maker at position 0, with the payload
/// `seed ‖ receive ‖ amount`, for the program `program_id`.
pub fn make(program_id: &Address, data: &[u8], accounts: &[AccountState]) -> (r: Result<Vec<Effect>, EscrowError>)
    ensures
        effects_view(r) == make_outcome(program_id@, data@, accounts@),
{
    match Make::try_from_parts(program_id, data, accounts) {
        Err(e) => Err(e),
        Ok(make_ix) => Ok(make_ix.process()),
    }
}

} // verus!

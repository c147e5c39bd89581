use vstd::prelude::*;
use vstd::bytes::{spec_u64_from_le_bytes, u64_from_le_bytes};
use crate::account::{AccountState, Effect, EscrowSigner};
use crate::address::{
    address_eq, canonical_program_address, created_program_address, derive_vault, escrow_address,
    escrow_seed_list, vault_seed_list, Address,
};
use crate::errors::EscrowError;
use crate::state::{load_record, loaded_view, read_address, Escrow, EscrowView};

verus! {

/// Minimum data length of a mint of the token program.
pub const MINT_LEN: usize = 82;

/// Position of the decimals byte in a mint's data.
pub const MINT_DECIMALS_OFFSET: usize = 44;

/// Data length of a token account of the token program.
pub const TOKEN_ACCOUNT_LEN: usize = 165;

/// `first`'s error if it failed, else `next`.
pub open spec fn check_then<T>(first: Result<(), EscrowError>, next: Result<T, EscrowError>) -> Result<T, EscrowError> {
    match first {
        Err(e) => Err(e),
        Ok(_) => next,
    }
}

/// The mint field of a token account's data.
pub open spec fn token_mint(d: Seq<u8>) -> Seq<u8> {
    d.subrange(0, 32)
}

/// The owner field of a token account's data.
pub open spec fn token_owner(d: Seq<u8>) -> Seq<u8> {
    d.subrange(32, 64)
}

/// The balance field of a token account's data.
pub open spec fn token_amount(d: Seq<u8>) -> u64 {
    spec_u64_from_le_bytes(d.subrange(64, 72))
}

pub open spec fn signer_check(a: AccountState) -> Result<(), EscrowError> {
    if a.is_signer {
        Ok(())
    } else {
        Err(EscrowError::MissingRequiredSignature)
    }
}

pub open spec fn mint_check(a: AccountState) -> Result<(), EscrowError> {
    if a.data@.len() < MINT_LEN {
        Err(EscrowError::InvalidAccountData)
    } else {
        Ok(())
    }
}

/// A token account of `mint` held by `owner`.
pub open spec fn token_account_check(ata: AccountState, owner: Seq<u8>, mint: Seq<u8>) -> Result<(), EscrowError> {
    if ata.data@.len() < TOKEN_ACCOUNT_LEN {
        Err(EscrowError::InvalidAccountData)
    } else if token_owner(ata.data@) != owner {
        Err(EscrowError::InvalidOwner)
    } else if token_mint(ata.data@) != mint {
        Err(EscrowError::InvalidAccountData)
    } else {
        Ok(())
    }
}

/// A token account that the operation may still have to create: no data yet
/// passes; otherwise it must be a token account of `mint` held by `owner`,
/// and a wrong mint is `mint_error`.
pub open spec fn existing_token_account_check(ata: AccountState, owner: Seq<u8>, mint: Seq<u8>, mint_error: EscrowError) -> Result<(), EscrowError> {
    if ata.data@.len() == 0 {
        Ok(())
    } else if ata.data@.len() < TOKEN_ACCOUNT_LEN {
        Err(EscrowError::InvalidAccountData)
    } else if token_owner(ata.data@) != owner {
        Err(EscrowError::InvalidOwner)
    } else if token_mint(ata.data@) != mint {
        Err(mint_error)
    } else {
        Ok(())
    }
}

/// `Some(create)` when the account has no data yet, else `None`.
pub open spec fn init_effect(a: AccountState, create: Effect) -> Option<Effect> {
    if a.data@.len() == 0 {
        Some(create)
    } else {
        None
    }
}

/// The decimals field of a mint's data.
pub open spec fn mint_decimals(d: Seq<u8>) -> u8 {
    d[MINT_DECIMALS_OFFSET as int]
}

/// An account of this program that holds data.
pub open spec fn program_check(a: AccountState) -> Result<(), EscrowError> {
    if a.data@.len() == 0 {
        Err(EscrowError::UninitializedAccount)
    } else {
        Ok(())
    }
}

/// A record account after its termination: no data, no lamports.
pub open spec fn is_closed(a: AccountState) -> bool {
    a.data@.len() == 0 && a.lamports == 0
}

/// Whether `data[off..off + 32]` is the identity `a`.
pub fn address_at(data: &[u8], off: usize, a: &Address) -> (r: bool)
    requires
        off + 32 <= data@.len(),
    ensures
        r == (data@.subrange(off as int, off + 32) == a@),
{
    let field = read_address(data, off);
    crate::address::address_eq(&field, a)
}

/// Checks that an account signed the transaction.
pub struct SignerAccount;

impl SignerAccount {
    pub fn check(account: &AccountState) -> (r: Result<(), EscrowError>)
        ensures
            r == signer_check(*account),
    {
        if !account.is_signer {
            return Err(EscrowError::MissingRequiredSignature);
        }
        Ok(())
    }
}

/// Checks that an account is large enough to be a mint.
pub struct MintInterface;

impl MintInterface {
    pub fn check(account: &AccountState) -> (r: Result<(), EscrowError>)
        ensures
            r == mint_check(*account),
    {
        if account.data.len() < MINT_LEN {
            return Err(EscrowError::InvalidAccountData);
        }
        Ok(())
    }

    /// The mint's decimals; refused when the account is too short to be a mint.
    pub fn decimals(account: &AccountState) -> (r: Result<u8, EscrowError>)
        ensures
            account.data@.len() < MINT_LEN ==> r == Err::<u8, EscrowError>(EscrowError::InvalidAccountData),
            account.data@.len() >= MINT_LEN ==> r == Ok::<u8, EscrowError>(mint_decimals(account.data@)),
    {
        if account.data.len() < MINT_LEN {
            return Err(EscrowError::InvalidAccountData);
        }
        Ok(account.data[MINT_DECIMALS_OFFSET])
    }
}

/// Checks and creation of the token accounts that hold the two assets.
pub struct AssociatedTokenAccount;

impl AssociatedTokenAccount {
    /// Checks that `ata` is a token account of `mint` held by `owner`.
    pub fn check(ata: &AccountState, owner: &AccountState, mint: &AccountState) -> (r: Result<(), EscrowError>)
        ensures
            r == token_account_check(*ata, owner.address@, mint.address@),
    {
        if ata.data.len() < TOKEN_ACCOUNT_LEN {
            return Err(EscrowError::InvalidAccountData);
        }
        if !address_at(ata.data.as_slice(), 32, &owner.address) {
            return Err(EscrowError::InvalidOwner);
        }
        if !address_at(ata.data.as_slice(), 0, &mint.address) {
            return Err(EscrowError::InvalidAccountData);
        }
        Ok(())
    }

    /// The creation of the token account at position `account` of the list,
    /// held by the account at `wallet`, when it has no data yet.
    pub fn init(accounts: &[AccountState], payer: usize, account: usize, wallet: usize, mint: usize) -> (r: Option<Effect>)
        requires
            account < accounts@.len(),
        ensures
            accounts@[account as int].data@.len() == 0 ==> r == Some(Effect::CreateTokenAccount { payer, account, wallet, mint }),
            accounts@[account as int].data@.len() != 0 ==> r is None,
    {
        if accounts[account].data.len() > 0 {
            return None;
        }
        Some(Effect::CreateTokenAccount { payer, account, wallet, mint })
    }

    /// Checks a token account that may not exist yet: one without data
    /// passes; one with data must be a token account of `mint` held by
    /// `owner`, and a wrong mint is `mint_error`.
    pub fn check_if_exists(ata: &AccountState, owner: &AccountState, mint: &AccountState, mint_error: EscrowError) -> (r: Result<(), EscrowError>)
        ensures
            r == existing_token_account_check(*ata, owner.address@, mint.address@, mint_error),
    {
        if ata.data.len() == 0 {
            return Ok(());
        }
        if ata.data.len() < TOKEN_ACCOUNT_LEN {
            return Err(EscrowError::InvalidAccountData);
        }
        if !address_at(ata.data.as_slice(), 32, &owner.address) {
            return Err(EscrowError::InvalidOwner);
        }
        if !address_at(ata.data.as_slice(), 0, &mint.address) {
            return Err(mint_error);
        }
        Ok(())
    }

    /// The creation of the token account at `account` when it has no data yet.
    pub fn init_if_needed(accounts: &[AccountState], payer: usize, account: usize, wallet: usize, mint: usize) -> (r: Option<Effect>)
        requires
            account < accounts@.len(),
        ensures
            r == init_effect(accounts@[account as int], Effect::CreateTokenAccount { payer, account, wallet, mint }),
    {
        if accounts[account].data.len() == 0 {
            Self::init(accounts, payer, account, wallet, mint)
        } else {
            None
        }
    }
}

/// Checks, creation and termination of this program's own record account.
pub struct ProgramAccount;

impl ProgramAccount {
    /// Checks that the account holds data (the record exists).
    pub fn check(account: &AccountState) -> (r: Result<(), EscrowError>)
        ensures
            r == program_check(*account),
    {
        if account.data.len() == 0 {
            return Err(EscrowError::UninitializedAccount);
        }
        Ok(())
    }

    /// The creation of the record's account at `record` when it does not
    /// exist yet; refused when it exists but is shorter than `space`.
    pub fn init(accounts: &[AccountState], payer: usize, record: usize, space: usize, signer: EscrowSigner) -> (r: Result<Option<Effect>, EscrowError>)
        requires
            record < accounts@.len(),
        ensures
            accounts@[record as int].data@.len() == 0 ==> r == Ok::<Option<Effect>, EscrowError>(
                Some(Effect::CreateRecord { payer, record, space: space as u64, signer })),
            0 < accounts@[record as int].data@.len() < space ==> r == Err::<Option<Effect>, EscrowError>(
                EscrowError::InvalidAccountData),
            accounts@[record as int].data@.len() >= space && accounts@[record as int].data@.len() > 0
                ==> r == Ok::<Option<Effect>, EscrowError>(None),
    {
        let len = accounts[record].data.len();
        if len == 0 {
            return Ok(Some(Effect::CreateRecord { payer, record, space: space as u64, signer }));
        }
        if len < space {
            return Err(EscrowError::InvalidAccountData);
        }
        Ok(None)
    }

    /// Terminates a record: moves all its lamports to `destination` and
    /// removes its data. Refused, with nothing changed, when the destination's
    /// balance would overflow.
    pub fn close(account: &mut AccountState, destination: &mut AccountState) -> (r: Result<(), EscrowError>)
        ensures
            old(destination).lamports + old(account).lamports > u64::MAX ==> r == Err::<(), EscrowError>(
                EscrowError::ArithmeticOverflow) && *final(account) == *old(account)
                && *final(destination) == *old(destination),
            old(destination).lamports + old(account).lamports <= u64::MAX ==> {
                &&& r is Ok
                &&& is_closed(*final(account))
                &&& final(account).address == old(account).address
                &&& final(account).is_signer == old(account).is_signer
                &&& final(destination).lamports == old(destination).lamports + old(account).lamports
                &&& final(destination).address == old(destination).address
                &&& final(destination).is_signer == old(destination).is_signer
                &&& final(destination).data == old(destination).data
            },
    {
        let moved = account.lamports;
        match destination.lamports.checked_add(moved) {
            None => Err(EscrowError::ArithmeticOverflow),
            Some(total) => {
                destination.lamports = total;
                account.lamports = 0;
                account.data = Vec::new();
                Ok(())
            },
        }
    }
}

/// The fields of a token account that the operations read.
#[derive(Debug, Clone, Copy, PartialEq, Eq)]
pub struct TokenAccount {
    pub mint: Address,
    pub owner: Address,
    pub amount: u64,
}

impl TokenAccount {
    /// Reads a token account's mint, owner and balance; refused when its data
    /// is shorter than the token account layout.
    pub fn from_account_info(account: &AccountState) -> (r: Result<TokenAccount, EscrowError>)
        ensures
            account.data@.len() < TOKEN_ACCOUNT_LEN ==> r == Err::<TokenAccount, EscrowError>(EscrowError::InvalidAccountData),
            account.data@.len() >= TOKEN_ACCOUNT_LEN ==> (r matches Ok(t) && t.mint@ == token_mint(account.data@)
                && t.owner@ == token_owner(account.data@) && t.amount == token_amount(account.data@)),
    {
        if account.data.len() < TOKEN_ACCOUNT_LEN {
            return Err(EscrowError::InvalidAccountData);
        }
        let data = account.data.as_slice();
        let mint = read_address(data, 0);
        let owner = read_address(data, 32);
        let amount = u64_from_le_bytes(vstd::slice::slice_subrange(data, 64, 72));
        Ok(TokenAccount { mint, owner, amount })
    }

    /// The account's token balance.
    pub fn amount(&self) -> (r: u64)
        ensures
            r == self.amount,
    {
        self.amount
    }
}

/// The checks that Take and Refund share before they act as the escrow, in
/// this order: the record decodes; the supplied escrow address is the one
/// that the record's own maker, seed and bump derive; the record names the
/// supplied maker and asset-A mint; the supplied vault is the escrow's
/// canonical vault. On success, the record.
pub open spec fn custody_check(
    program_id: Seq<u8>,
    maker: AccountState,
    escrow: AccountState,
    mint_a: AccountState,
    vault: AccountState,
) -> Result<EscrowView, EscrowError> {
    match load_record(escrow.data@) {
        Err(e) => Err(e),
        Ok(rec) => if created_program_address(escrow_seed_list(rec.maker, rec.seed).push(seq![rec.bump]), program_id)
            != Some(escrow.address@) {
            Err(EscrowError::DerivationMismatch)
        } else if maker.address@ != rec.maker {
            Err(EscrowError::InvalidMaker)
        } else if mint_a.address@ != rec.mint_a {
            Err(EscrowError::InvalidMintA)
        } else {
            match canonical_program_address(vault_seed_list(escrow.address@), program_id) {
                None => Err(EscrowError::DerivationMismatch),
                Some((v, _)) => if v != vault.address@ {
                    Err(EscrowError::DerivationMismatch)
                } else {
                    Ok(rec)
                },
            }
        },
    }
}

/// Runs `custody_check`.
pub fn check_custody(
    program_id: &Address,
    maker: &AccountState,
    escrow: &AccountState,
    mint_a: &AccountState,
    vault: &AccountState,
) -> (r: Result<Escrow, EscrowError>)
    ensures
        loaded_view(r) == custody_check(program_id@, *maker, *escrow, *mint_a, *vault),
{
    let rec = match Escrow::load(escrow.data.as_slice()) {
        Err(e) => return Err(e),
        Ok(rec) => rec,
    };
    match escrow_address(&rec.maker, rec.seed, rec.bump, program_id) {
        None => return Err(EscrowError::DerivationMismatch),
        Some(key) => if !address_eq(&key, &escrow.address) {
            return Err(EscrowError::DerivationMismatch);
        },
    }
    if !address_eq(&maker.address, &rec.maker) {
        return Err(EscrowError::InvalidMaker);
    }
    if !address_eq(&mint_a.address, &rec.mint_a) {
        return Err(EscrowError::InvalidMintA);
    }
    match derive_vault(&escrow.address, program_id) {
        None => return Err(EscrowError::DerivationMismatch),
        Some((key, _)) => if !address_eq(&key, &vault.address) {
            return Err(EscrowError::DerivationMismatch);
        },
    }
    Ok(rec)
}

} // verus!

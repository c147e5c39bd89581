use blueshift_escrow::account::{AccountState, Effect, EscrowSigner};
use blueshift_escrow::address::{derive_escrow, derive_vault};
use blueshift_escrow::errors::EscrowError;
use blueshift_escrow::instructions::helpers::ProgramAccount;
use blueshift_escrow::instructions::make::make;
use blueshift_escrow::instructions::refund::refund;
use blueshift_escrow::instructions::take::take;
use blueshift_escrow::state::{Escrow, ESCROW_LEN};

const PROGRAM: [u8; 32] = [9u8; 32];
const MAKER: [u8; 32] = [1u8; 32];
const TAKER: [u8; 32] = [2u8; 32];
const MINT_A: [u8; 32] = [3u8; 32];
const MINT_B: [u8; 32] = [4u8; 32];
const MAKER_ATA_A: [u8; 32] = [5u8; 32];
const TAKER_ATA_A: [u8; 32] = [6u8; 32];
const TAKER_ATA_B: [u8; 32] = [7u8; 32];
const MAKER_ATA_B: [u8; 32] = [8u8; 32];
const SYSTEM: [u8; 32] = [0u8; 32];
const TOKEN: [u8; 32] = [10u8; 32];
const OTHER: [u8; 32] = [11u8; 32];
const DECOY: [u8; 32] = [12u8; 32];
const RENT: u64 = 1_000;
const SEED: u64 = 42;

fn token_data(mint: [u8; 32], owner: [u8; 32], amount: u64) -> Vec<u8> {
    let mut d = vec![0u8; 165];
    d[0..32].copy_from_slice(&mint);
    d[32..64].copy_from_slice(&owner);
    d[64..72].copy_from_slice(&amount.to_le_bytes());
    d
}

fn mint_data(decimals: u8) -> Vec<u8> {
    let mut d = vec![0u8; 82];
    d[44] = decimals;
    d
}

fn balance(data: &[u8]) -> u64 {
    u64::from_le_bytes(data[64..72].try_into().unwrap())
}

fn payload(seed: u64, receive: u64, amount: u64) -> Vec<u8> {
    let mut d = Vec::new();
    d.extend_from_slice(&seed.to_le_bytes());
    d.extend_from_slice(&receive.to_le_bytes());
    d.extend_from_slice(&amount.to_le_bytes());
    d
}

/// A stand-in for the host: every account by address, and the token and
/// system programs' behaviour, enough to carry out an operation's effects.
struct World {
    accounts: Vec<AccountState>,
    escrow: [u8; 32],
    vault: [u8; 32],
}

impl World {
    fn new() -> World {
        let (escrow, _) = derive_escrow(&MAKER, SEED, &PROGRAM).unwrap();
        let (vault, _) = derive_vault(&escrow, &PROGRAM).unwrap();
        let plain = |address: [u8; 32], lamports: u64, data: Vec<u8>| AccountState {
            address,
            is_signer: false,
            lamports,
            data,
        };
        World {
            accounts: vec![
                plain(MAKER, 50_000, vec![]),
                plain(TAKER, 50_000, vec![]),
                plain(MINT_A, RENT, mint_data(6)),
                plain(MINT_B, RENT, vec![0u8; 82]),
                plain(MAKER_ATA_A, RENT, token_data(MINT_A, MAKER, 1_000)),
                plain(TAKER_ATA_A, 0, vec![]),
                plain(TAKER_ATA_B, RENT, token_data(MINT_B, TAKER, 500)),
                plain(MAKER_ATA_B, 0, vec![]),
                plain(SYSTEM, 1, vec![]),
                plain(TOKEN, 1, vec![]),
                plain(escrow, 0, vec![]),
                plain(vault, 0, vec![]),
                plain(OTHER, 0, vec![]),
                plain(DECOY, 0, vec![]),
            ],
            escrow,
            vault,
        }
    }

    fn index(&self, address: [u8; 32]) -> usize {
        self.accounts.iter().position(|a| a.address == address).unwrap()
    }

    fn get(&self, address: [u8; 32]) -> &AccountState {
        &self.accounts[self.index(address)]
    }

    /// The account list of an operation, with `signer` signing.
    fn list(&self, addresses: &[[u8; 32]], signer: [u8; 32]) -> Vec<AccountState> {
        addresses
            .iter()
            .map(|a| {
                let mut acc = self.get(*a).clone();
                acc.is_signer = *a == signer;
                acc
            })
            .collect()
    }

    fn move_lamports(&mut self, from: [u8; 32], to: [u8; 32], amount: u64) {
        let f = self.index(from);
        let t = self.index(to);
        self.accounts[f].lamports -= amount;
        self.accounts[t].lamports += amount;
    }

    fn apply(&mut self, list: &[[u8; 32]], effects: &[Effect]) {
        for effect in effects {
            match *effect {
                Effect::CreateRecord { payer, record, space, .. } => {
                    self.move_lamports(list[payer], list[record], RENT);
                    let i = self.index(list[record]);
                    self.accounts[i].data = vec![0u8; space as usize];
                }
                Effect::CreateVault { payer, vault, mint, authority, .. } => {
                    self.move_lamports(list[payer], list[vault], RENT);
                    let i = self.index(list[vault]);
                    self.accounts[i].data = token_data(list[mint], list[authority], 0);
                }
                Effect::CreateTokenAccount { payer, account, wallet, mint } => {
                    self.move_lamports(list[payer], list[account], RENT);
                    let i = self.index(list[account]);
                    self.accounts[i].data = token_data(list[mint], list[wallet], 0);
                }
                Effect::WriteRecord { record, escrow } => {
                    let i = self.index(list[record]);
                    escrow.store(&mut self.accounts[i].data).unwrap();
                }
                Effect::TransferChecked { from, mint, to, amount, decimals, .. } => {
                    let m = self.index(list[mint]);
                    assert_eq!(self.accounts[m].data[44], decimals);
                    let f = self.index(list[from]);
                    assert_eq!(&self.accounts[f].data[0..32], &list[mint]);
                    let t = self.index(list[to]);
                    let fb = balance(&self.accounts[f].data) - amount;
                    let tb = balance(&self.accounts[t].data) + amount;
                    self.accounts[f].data[64..72].copy_from_slice(&fb.to_le_bytes());
                    self.accounts[t].data[64..72].copy_from_slice(&tb.to_le_bytes());
                }
                Effect::Transfer { from, to, amount, .. } => {
                    let f = self.index(list[from]);
                    let t = self.index(list[to]);
                    let fb = balance(&self.accounts[f].data) - amount;
                    let tb = balance(&self.accounts[t].data) + amount;
                    self.accounts[f].data[64..72].copy_from_slice(&fb.to_le_bytes());
                    self.accounts[t].data[64..72].copy_from_slice(&tb.to_le_bytes());
                }
                Effect::CloseTokenAccount { account, destination, .. } => {
                    let i = self.index(list[account]);
                    assert_eq!(balance(&self.accounts[i].data), 0);
                    let lamports = self.accounts[i].lamports;
                    self.move_lamports(list[account], list[destination], lamports);
                    self.accounts[i].data.clear();
                }
                Effect::CloseRecord { record, destination } => {
                    let r = self.index(list[record]);
                    let d = self.index(list[destination]);
                    let mut rec = self.accounts[r].clone();
                    let mut dest = self.accounts[d].clone();
                    ProgramAccount::close(&mut rec, &mut dest).unwrap();
                    self.accounts[r] = rec;
                    self.accounts[d] = dest;
                }
            }
        }
    }

    fn make_list(&self) -> Vec<[u8; 32]> {
        vec![MAKER, self.escrow, MINT_A, MINT_B, MAKER_ATA_A, self.vault, SYSTEM, TOKEN]
    }

    fn take_list(&self) -> Vec<[u8; 32]> {
        vec![TAKER, MAKER, self.escrow, MINT_A, MINT_B, self.vault, TAKER_ATA_A, TAKER_ATA_B, MAKER_ATA_B, SYSTEM, TOKEN]
    }

    fn refund_list(&self) -> Vec<[u8; 32]> {
        vec![MAKER, self.escrow, MINT_A, self.vault, MAKER_ATA_A, SYSTEM, TOKEN]
    }

    fn run_make(&mut self, receive: u64, amount: u64) -> Result<Vec<Effect>, EscrowError> {
        let list = self.make_list();
        let r = make(&PROGRAM, &payload(SEED, receive, amount), &self.list(&list, MAKER));
        if let Ok(effects) = &r {
            self.apply(&list, effects);
        }
        r
    }

    fn run_take(&mut self, list: Vec<[u8; 32]>) -> Result<Vec<Effect>, EscrowError> {
        let r = take(&PROGRAM, &self.list(&list, TAKER));
        if let Ok(effects) = &r {
            self.apply(&list, effects);
        }
        r
    }

    fn run_refund(&mut self, list: Vec<[u8; 32]>, signer: [u8; 32]) -> Result<Vec<Effect>, EscrowError> {
        let r = refund(&PROGRAM, &self.list(&list, signer));
        if let Ok(effects) = &r {
            self.apply(&list, effects);
        }
        r
    }

    fn snapshot(&self) -> Vec<(u64, Vec<u8>)> {
        self.accounts.iter().map(|a| (a.lamports, a.data.clone())).collect()
    }
}

#[test]
fn make_creates_record_and_vault() {
    let mut w = World::new();
    let (_, bump) = derive_escrow(&MAKER, SEED, &PROGRAM).unwrap();
    let (_, vault_bump) = derive_vault(&w.escrow, &PROGRAM).unwrap();
    let effects = w.run_make(100, 10).unwrap();
    let signer = EscrowSigner { maker: MAKER, seed: SEED, bump };
    let record = Escrow { seed: SEED, maker: MAKER, mint_a: MINT_A, mint_b: MINT_B, receive: 100, bump };
    assert_eq!(
        effects,
        vec![
            Effect::CreateRecord { payer: 0, record: 1, space: ESCROW_LEN as u64, signer },
            Effect::CreateVault { payer: 0, vault: 5, mint: 2, authority: 1, bump: vault_bump },
            Effect::WriteRecord { record: 1, escrow: record },
            Effect::Transfer { from: 4, to: 5, authority: 0, amount: 10, escrow_seeds: None },
        ]
    );
    assert_eq!(Escrow::load(&w.get(w.escrow).data), Ok(record));
    assert_eq!(balance(&w.get(w.vault).data), 10);
    assert_eq!(balance(&w.get(MAKER_ATA_A).data), 990);
}

#[test]
fn make_again_skips_creation() {
    let mut w = World::new();
    w.run_make(100, 10).unwrap();
    let record = w.get(w.escrow).data.clone();
    let effects = w.run_make(200, 5).unwrap();
    assert!(effects.is_empty());
    assert_eq!(balance(&w.get(w.vault).data), 10);
    assert_eq!(balance(&w.get(MAKER_ATA_A).data), 990);
    assert_eq!(w.get(w.escrow).data, record);
}

#[test]
fn make_rejects_zero_amount_or_receive() {
    let mut w = World::new();
    let before = w.snapshot();
    assert_eq!(w.run_make(100, 0), Err(EscrowError::InvalidAmount));
    assert_eq!(w.run_make(0, 10), Err(EscrowError::InvalidAmount));
    assert_eq!(w.run_make(0, 0), Err(EscrowError::InvalidAmount));
    assert_eq!(w.snapshot(), before);
    let too_few = w.list(&[MAKER], MAKER);
    assert_eq!(make(&PROGRAM, &payload(SEED, 100, 0), &too_few), Err(EscrowError::InvalidAmount));
}

#[test]
fn make_rejects_bad_payload_and_accounts() {
    let w = World::new();
    let list = w.make_list();
    let accounts = w.list(&list, MAKER);
    assert_eq!(make(&PROGRAM, &payload(SEED, 100, 10)[..16], &accounts), Err(EscrowError::InvalidInstructionData));
    assert_eq!(make(&PROGRAM, &payload(SEED, 100, 10), &accounts[..7]), Err(EscrowError::NotEnoughAccountKeys));
    let unsigned = w.list(&list, OTHER);
    assert_eq!(make(&PROGRAM, &payload(SEED, 100, 10), &unsigned), Err(EscrowError::MissingRequiredSignature));
    let same_mints = w.list(&[MAKER, w.escrow, MINT_A, MINT_A, MAKER_ATA_A, w.vault, SYSTEM, TOKEN], MAKER);
    assert_eq!(make(&PROGRAM, &payload(SEED, 100, 10), &same_mints), Err(EscrowError::InvalidMintB));
    let bad_mint = w.list(&[MAKER, w.escrow, OTHER, MINT_B, MAKER_ATA_A, w.vault, SYSTEM, TOKEN], MAKER);
    assert_eq!(make(&PROGRAM, &payload(SEED, 100, 10), &bad_mint), Err(EscrowError::InvalidAccountData));
    let wrong_owner = w.list(&[MAKER, w.escrow, MINT_A, MINT_B, TAKER_ATA_B, w.vault, SYSTEM, TOKEN], MAKER);
    assert_eq!(make(&PROGRAM, &payload(SEED, 100, 10), &wrong_owner), Err(EscrowError::InvalidOwner));
}

#[test]
fn make_rejects_wrong_escrow_or_vault() {
    let w = World::new();
    let wrong_escrow = w.list(&[MAKER, OTHER, MINT_A, MINT_B, MAKER_ATA_A, w.vault, SYSTEM, TOKEN], MAKER);
    assert_eq!(make(&PROGRAM, &payload(SEED, 100, 10), &wrong_escrow), Err(EscrowError::DerivationMismatch));
    let list = w.make_list();
    assert_eq!(
        make(&PROGRAM, &payload(SEED + 1, 100, 10), &w.list(&list, MAKER)),
        Err(EscrowError::DerivationMismatch)
    );
    let wrong_vault = w.list(&[MAKER, w.escrow, MINT_A, MINT_B, MAKER_ATA_A, OTHER, SYSTEM, TOKEN], MAKER);
    assert_eq!(make(&PROGRAM, &payload(SEED, 100, 10), &wrong_vault), Err(EscrowError::DerivationMismatch));
    assert_eq!(make(&[8u8; 32], &payload(SEED, 100, 10), &w.list(&list, MAKER)), Err(EscrowError::DerivationMismatch));
}

#[test]
fn make_then_take_settles() {
    let mut w = World::new();
    w.run_make(100, 10).unwrap();
    let maker_lamports = w.get(MAKER).lamports;
    let list = w.take_list();
    let effects = w.run_take(list).unwrap();
    assert_eq!(effects.len(), 6);
    assert!(matches!(effects[0], Effect::CreateTokenAccount { payer: 0, account: 6, wallet: 0, mint: 3 }));
    assert!(matches!(effects[1], Effect::CreateTokenAccount { payer: 0, account: 8, wallet: 1, mint: 4 }));
    assert!(matches!(effects[2], Effect::Transfer { from: 5, to: 6, authority: 2, amount: 10, escrow_seeds: Some(_) }));
    assert!(matches!(effects[3], Effect::CloseTokenAccount { account: 5, destination: 1, authority: 2, .. }));
    assert!(matches!(effects[4], Effect::Transfer { from: 7, to: 8, authority: 0, amount: 100, escrow_seeds: None }));
    assert!(matches!(effects[5], Effect::CloseRecord { record: 2, destination: 1 }));
    assert!(w.get(w.vault).data.is_empty());
    assert_eq!(w.get(w.vault).lamports, 0);
    assert_eq!(balance(&w.get(TAKER_ATA_A).data), 10);
    assert_eq!(balance(&w.get(MAKER_ATA_B).data), 100);
    assert_eq!(balance(&w.get(TAKER_ATA_B).data), 400);
    assert!(w.get(w.escrow).data.is_empty());
    assert_eq!(w.get(w.escrow).lamports, 0);
    assert_eq!(w.get(MAKER).lamports, maker_lamports + 2 * RENT);
}

#[test]
fn make_then_refund_restores() {
    let mut w = World::new();
    w.run_make(100, 10).unwrap();
    assert_eq!(balance(&w.get(MAKER_ATA_A).data), 990);
    let list = w.refund_list();
    let effects = w.run_refund(list, MAKER).unwrap();
    assert_eq!(effects.len(), 3);
    let (_, bump) = derive_escrow(&MAKER, SEED, &PROGRAM).unwrap();
    assert_eq!(
        effects[0],
        Effect::TransferChecked {
            from: 3,
            mint: 2,
            to: 4,
            authority: 1,
            amount: 10,
            decimals: 6,
            escrow_seeds: EscrowSigner { maker: MAKER, seed: SEED, bump },
        }
    );
    assert!(matches!(effects[1], Effect::CloseTokenAccount { account: 3, destination: 0, authority: 1, .. }));
    assert!(matches!(effects[2], Effect::CloseRecord { record: 1, destination: 0 }));
    assert_eq!(balance(&w.get(MAKER_ATA_A).data), 1_000);
    assert!(w.get(w.vault).data.is_empty());
    assert!(w.get(w.escrow).data.is_empty());
    assert_eq!(w.get(w.escrow).lamports, 0);
}

#[test]
fn take_with_wrong_maker_fails() {
    let mut w = World::new();
    w.run_make(100, 10).unwrap();
    let before = w.snapshot();
    let list = vec![TAKER, OTHER, w.escrow, MINT_A, MINT_B, w.vault, TAKER_ATA_A, TAKER_ATA_B, MAKER_ATA_B, SYSTEM, TOKEN];
    assert_eq!(w.run_take(list), Err(EscrowError::InvalidMaker));
    assert_eq!(w.snapshot(), before);
}

#[test]
fn take_twice_fails_second_time() {
    let mut w = World::new();
    w.run_make(100, 10).unwrap();
    let list = w.take_list();
    w.run_take(list.clone()).unwrap();
    let before = w.snapshot();
    assert_eq!(w.run_take(list), Err(EscrowError::UninitializedAccount));
    assert_eq!(w.snapshot(), before);
    assert_eq!(balance(&w.get(TAKER_ATA_A).data), 10);
    assert_eq!(balance(&w.get(MAKER_ATA_B).data), 100);
}

#[test]
fn take_and_refund_reject_wrong_escrow() {
    let mut w = World::new();
    w.run_make(100, 10).unwrap();
    // a copy of the genuine record at an address that it does not derive
    // and a vault held by that address
    let i = w.index(OTHER);
    w.accounts[i].data = w.get(w.escrow).data.clone();
    let d = w.index(DECOY);
    w.accounts[d].data = token_data(MINT_A, OTHER, 10);
    let take_list = vec![TAKER, MAKER, OTHER, MINT_A, MINT_B, DECOY, TAKER_ATA_A, TAKER_ATA_B, MAKER_ATA_B, SYSTEM, TOKEN];
    assert_eq!(w.run_take(take_list), Err(EscrowError::DerivationMismatch));
    let refund_list = vec![MAKER, OTHER, MINT_A, DECOY, MAKER_ATA_A, SYSTEM, TOKEN];
    assert_eq!(w.run_refund(refund_list, MAKER), Err(EscrowError::DerivationMismatch));
}

#[test]
fn take_checks_mints_and_accounts() {
    let mut w = World::new();
    w.run_make(100, 10).unwrap();
    let list = w.take_list();
    assert_eq!(take(&PROGRAM, &w.list(&list[..10], TAKER)), Err(EscrowError::NotEnoughAccountKeys));
    assert_eq!(take(&PROGRAM, &w.list(&list, OTHER)), Err(EscrowError::MissingRequiredSignature));
    let swapped = vec![TAKER, MAKER, w.escrow, MINT_B, MINT_A, w.vault, TAKER_ATA_A, TAKER_ATA_B, MAKER_ATA_B, SYSTEM, TOKEN];
    assert_eq!(take(&PROGRAM, &w.list(&swapped, TAKER)), Err(EscrowError::InvalidMintA));
    let wrong_b = vec![TAKER, MAKER, w.escrow, MINT_A, MINT_A, w.vault, TAKER_ATA_A, TAKER_ATA_B, MAKER_ATA_B, SYSTEM, TOKEN];
    assert_eq!(take(&PROGRAM, &w.list(&wrong_b, TAKER)), Err(EscrowError::InvalidMintB));
    let not_vault = vec![TAKER, MAKER, w.escrow, MINT_A, MINT_B, MAKER_ATA_A, TAKER_ATA_A, TAKER_ATA_B, MAKER_ATA_B, SYSTEM, TOKEN];
    assert_eq!(take(&PROGRAM, &w.list(&not_vault, TAKER)), Err(EscrowError::DerivationMismatch));
    let d = w.index(DECOY);
    w.accounts[d].data = token_data(MINT_A, w.escrow, 10);
    let wrong_vault = vec![TAKER, MAKER, w.escrow, MINT_A, MINT_B, DECOY, TAKER_ATA_A, TAKER_ATA_B, MAKER_ATA_B, SYSTEM, TOKEN];
    assert_eq!(take(&PROGRAM, &w.list(&wrong_vault, TAKER)), Err(EscrowError::DerivationMismatch));
    let wrong_payer = vec![TAKER, MAKER, w.escrow, MINT_A, MINT_B, w.vault, TAKER_ATA_A, MAKER_ATA_A, MAKER_ATA_B, SYSTEM, TOKEN];
    assert_eq!(take(&PROGRAM, &w.list(&wrong_payer, TAKER)), Err(EscrowError::InvalidOwner));
    let i = w.index(w.escrow);
    w.accounts[i].data.truncate(100);
    assert_eq!(take(&PROGRAM, &w.list(&list, TAKER)), Err(EscrowError::InvalidAccountData));
}

/// The maker's asset-B account and the maker's asset-A account both exist.
fn world_with_maker_accounts() -> World {
    let mut w = World::new();
    w.run_make(100, 10).unwrap();
    let j = w.index(MAKER_ATA_B);
    w.accounts[j].data = token_data(MINT_B, MAKER, 0);
    w
}

#[test]
fn take_with_wrong_maker_and_real_accounts_fails() {
    let mut w = world_with_maker_accounts();
    let before = w.snapshot();
    let list = vec![TAKER, OTHER, w.escrow, MINT_A, MINT_B, w.vault, TAKER_ATA_A, TAKER_ATA_B, MAKER_ATA_B, SYSTEM, TOKEN];
    assert_eq!(w.run_take(list), Err(EscrowError::InvalidMaker));
    assert_eq!(w.snapshot(), before);
}

#[test]
fn refund_by_other_signer_with_makers_account_fails() {
    let mut w = world_with_maker_accounts();
    let before = w.snapshot();
    let list = vec![TAKER, w.escrow, MINT_A, w.vault, MAKER_ATA_A, SYSTEM, TOKEN];
    assert_eq!(w.run_refund(list, TAKER), Err(EscrowError::InvalidMaker));
    assert_eq!(w.snapshot(), before);
}

#[test]
fn substituted_escrow_with_genuine_vault_fails() {
    let mut w = world_with_maker_accounts();
    let i = w.index(OTHER);
    w.accounts[i].data = w.get(w.escrow).data.clone();
    let before = w.snapshot();
    let take_list = vec![TAKER, MAKER, OTHER, MINT_A, MINT_B, w.vault, TAKER_ATA_A, TAKER_ATA_B, MAKER_ATA_B, SYSTEM, TOKEN];
    assert_eq!(w.run_take(take_list), Err(EscrowError::DerivationMismatch));
    let refund_list = vec![MAKER, OTHER, MINT_A, w.vault, MAKER_ATA_A, SYSTEM, TOKEN];
    assert_eq!(w.run_refund(refund_list, MAKER), Err(EscrowError::DerivationMismatch));
    // with a wrong maker as well, the substituted escrow is still what is reported
    let take_list = vec![TAKER, TAKER, OTHER, MINT_A, MINT_B, w.vault, TAKER_ATA_A, TAKER_ATA_B, MAKER_ATA_B, SYSTEM, TOKEN];
    assert_eq!(w.run_take(take_list), Err(EscrowError::DerivationMismatch));
    assert_eq!(w.snapshot(), before);
}

#[test]
fn take_checks_record_mints() {
    let mut w = World::new();
    w.run_make(100, 10).unwrap();
    let list = w.take_list();
    let e = w.index(w.escrow);
    let genuine = w.accounts[e].data.clone();
    w.accounts[e].data[40..72].copy_from_slice(&OTHER);
    assert_eq!(take(&PROGRAM, &w.list(&list, TAKER)), Err(EscrowError::InvalidMintA));
    w.accounts[e].data = genuine;
    w.accounts[e].data[72..104].copy_from_slice(&OTHER);
    assert_eq!(take(&PROGRAM, &w.list(&list, TAKER)), Err(EscrowError::InvalidMintB));
    let refund_list = w.refund_list();
    assert!(refund(&PROGRAM, &w.list(&refund_list, MAKER)).is_ok());
    w.accounts[e].data[40..72].copy_from_slice(&OTHER);
    assert_eq!(refund(&PROGRAM, &w.list(&refund_list, MAKER)), Err(EscrowError::InvalidMintA));
}

#[test]
fn take_checks_existing_token_accounts() {
    let mut w = World::new();
    w.run_make(100, 10).unwrap();
    let list = w.take_list();
    let i = w.index(TAKER_ATA_A);
    w.accounts[i].data = token_data(MINT_A, OTHER, 0);
    assert_eq!(take(&PROGRAM, &w.list(&list, TAKER)), Err(EscrowError::InvalidOwner));
    w.accounts[i].data = token_data(MINT_B, TAKER, 0);
    assert_eq!(take(&PROGRAM, &w.list(&list, TAKER)), Err(EscrowError::InvalidMintA));
    w.accounts[i].data = token_data(MINT_A, TAKER, 0);
    let j = w.index(MAKER_ATA_B);
    w.accounts[j].data = token_data(MINT_B, OTHER, 0);
    assert_eq!(take(&PROGRAM, &w.list(&list, TAKER)), Err(EscrowError::InvalidOwner));
    w.accounts[j].data = token_data(MINT_A, MAKER, 0);
    assert_eq!(take(&PROGRAM, &w.list(&list, TAKER)), Err(EscrowError::InvalidMintB));
    w.accounts[j].data = token_data(MINT_B, MAKER, 0);
    let effects = take(&PROGRAM, &w.list(&list, TAKER)).unwrap();
    assert_eq!(effects.len(), 4);
}

#[test]
fn take_checks_vault_holder() {
    let mut w = World::new();
    w.run_make(100, 10).unwrap();
    let list = w.take_list();
    let v = w.index(w.vault);
    w.accounts[v].data = token_data(MINT_A, OTHER, 10);
    assert_eq!(take(&PROGRAM, &w.list(&list, TAKER)), Err(EscrowError::InvalidOwner));
    let refund_list = w.refund_list();
    assert_eq!(refund(&PROGRAM, &w.list(&refund_list, MAKER)), Err(EscrowError::InvalidOwner));
}

#[test]
fn refund_checks_existing_maker_account() {
    let mut w = World::new();
    w.run_make(100, 10).unwrap();
    let list = w.refund_list();
    let i = w.index(MAKER_ATA_A);
    w.accounts[i].data = token_data(MINT_B, MAKER, 990);
    assert_eq!(refund(&PROGRAM, &w.list(&list, MAKER)), Err(EscrowError::InvalidMintA));
}

#[test]
fn refund_only_by_maker() {
    let mut w = World::new();
    w.run_make(100, 10).unwrap();
    let before = w.snapshot();
    let list = vec![TAKER, w.escrow, MINT_A, w.vault, TAKER_ATA_A, SYSTEM, TOKEN];
    assert_eq!(w.run_refund(list, TAKER), Err(EscrowError::InvalidMaker));
    let list = w.refund_list();
    assert_eq!(w.run_refund(list.clone(), OTHER), Err(EscrowError::MissingRequiredSignature));
    assert_eq!(refund(&PROGRAM, &w.list(&list[..6], MAKER)), Err(EscrowError::NotEnoughAccountKeys));
    assert_eq!(w.snapshot(), before);
}

#[test]
fn refund_after_take_fails() {
    let mut w = World::new();
    w.run_make(100, 10).unwrap();
    let list = w.take_list();
    w.run_take(list).unwrap();
    let list = w.refund_list();
    assert_eq!(w.run_refund(list, MAKER), Err(EscrowError::UninitializedAccount));
}

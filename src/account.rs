use vstd::prelude::*;
use crate::address::Address;
use crate::errors::EscrowError;
use crate::state::Escrow;

verus! {

/// An account as the host hands it to an operation: its address, whether it
/// signed the transaction, its native balance and its data.
#[derive(Debug, Clone)]
pub struct AccountState {
    pub address: Address,
    pub is_signer: bool,
    pub lamports: u64,
    pub data: Vec<u8>,
}

/// The seeds with which the escrow address signs: `"escrow" ‖ maker ‖ seed ‖ bump`.
#[derive(Debug, Clone, Copy, PartialEq, Eq)]
pub struct EscrowSigner {
    pub maker: Address,
    pub seed: u64,
    pub bump: u8,
}

/// One step that the host carries out for an operation that succeeded, in the
/// order given. Accounts are named by their position in the operation's
/// account list.
#[derive(Debug, Clone, Copy, PartialEq, Eq)]
pub enum Effect {
    /// Create the record's account with `space` bytes, owned by this program,
    /// funded by `payer`, signed for by the escrow's seeds.
    CreateRecord { payer: usize, record: usize, space: u64, signer: EscrowSigner },
    /// Create the vault at the address that `"vault" ‖ escrow ‖ bump` derive,
    /// funded by `payer`, as a token account of `mint` held by `authority`.
    CreateVault { payer: usize, vault: usize, mint: usize, authority: usize, bump: u8 },
    /// Create the associated token account of `wallet` for `mint`, funded by `payer`.
    CreateTokenAccount { payer: usize, account: usize, wallet: usize, mint: usize },
    /// Write the record's encoding over the front of the record's data.
    WriteRecord { record: usize, escrow: Escrow },
    /// Move `amount` tokens from `from` to `to`; the escrow signs when
    /// `escrow_seeds` are given, else `authority` has signed the transaction itself.
    Transfer { from: usize, to: usize, authority: usize, amount: u64, escrow_seeds: Option<EscrowSigner> },
    /// Move `amount` tokens of the mint at `mint`, which has `decimals`
    /// decimals, from `from` to `to`, with the escrow signing as `authority`;
    /// the token program refuses it when the mint or the decimals disagree.
    TransferChecked {
        from: usize,
        mint: usize,
        to: usize,
        authority: usize,
        amount: u64,
        decimals: u8,
        escrow_seeds: EscrowSigner,
    },
    /// Close an emptied token account, its lamports to `destination`, with the
    /// escrow signing as its authority.
    CloseTokenAccount { account: usize, destination: usize, authority: usize, signer: EscrowSigner },
    /// Terminate the record: its lamports to `destination`, its data removed.
    CloseRecord { record: usize, destination: usize },
}

/// An operation's outcome with its effects as a sequence.
pub open spec fn effects_view(r: Result<Vec<Effect>, EscrowError>) -> Result<Seq<Effect>, EscrowError> {
    match r {
        Ok(v) => Ok(v@),
        Err(e) => Err(e),
    }
}

/// `Some(e)` as a sequence of one, `None` as the empty sequence.
pub open spec fn optional_effect(e: Option<Effect>) -> Seq<Effect> {
    match e {
        Some(e) => seq![e],
        None => Seq::empty(),
    }
}

} // verus!

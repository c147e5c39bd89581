use vstd::prelude::*;
use vstd::bytes::{
    lemma_auto_spec_u64_to_from_le_bytes, spec_u64_from_le_bytes, spec_u64_to_le_bytes,
    u64_from_le_bytes, u64_to_le_bytes,
};
use crate::address::{address_bytes, Address};
use crate::errors::EscrowError;

verus! {

/// Size of an encoded record: seed, maker, mint A, mint B, receive, bump.
pub const ESCROW_LEN: usize = 113;

/// The persistent terms of one escrow.
#[derive(Debug, Clone, Copy, PartialEq, Eq)]
pub struct Escrow {
    /// Disambiguates several escrows of one maker.
    pub seed: u64,
    /// Entitled to the refund and to the payment in asset B.
    pub maker: Address,
    /// The asset that the maker deposited.
    pub mint_a: Address,
    /// The asset that the maker wants.
    pub mint_b: Address,
    /// The exact amount of asset B that a taker pays.
    pub receive: u64,
    /// The bump that completes the derivation of the escrow's address.
    pub bump: u8,
}

/// The record's terms as mathematical values.
pub ghost struct EscrowView {
    pub seed: u64,
    pub maker: Seq<u8>,
    pub mint_a: Seq<u8>,
    pub mint_b: Seq<u8>,
    pub receive: u64,
    pub bump: u8,
}

impl EscrowView {
    /// Every identity is 32 bytes long.
    pub open spec fn wf(self) -> bool {
        &&& self.maker.len() == 32
        &&& self.mint_a.len() == 32
        &&& self.mint_b.len() == 32
    }
}

impl View for Escrow {
    type V = EscrowView;

    open spec fn view(&self) -> EscrowView {
        EscrowView {
            seed: self.seed,
            maker: self.maker@,
            mint_a: self.mint_a@,
            mint_b: self.mint_b@,
            receive: self.receive,
            bump: self.bump,
        }
    }
}

/// The fixed layout: integers little-endian, identities as raw bytes, in the
/// order of the fields, with no padding.
pub open spec fn encode_record(e: EscrowView) -> Seq<u8> {
    spec_u64_to_le_bytes(e.seed) + e.maker + e.mint_a + e.mint_b + spec_u64_to_le_bytes(e.receive)
        + seq![e.bump]
}

/// The record that the first `ESCROW_LEN` bytes of `s` encode.
pub open spec fn decode_record(s: Seq<u8>) -> EscrowView {
    EscrowView {
        seed: spec_u64_from_le_bytes(s.subrange(0, 8)),
        maker: s.subrange(8, 40),
        mint_a: s.subrange(40, 72),
        mint_b: s.subrange(72, 104),
        receive: spec_u64_from_le_bytes(s.subrange(104, 112)),
        bump: s[112],
    }
}

/// Decoding a buffer: refused when it is shorter than the layout.
pub open spec fn load_record(s: Seq<u8>) -> Result<EscrowView, EscrowError> {
    if s.len() < ESCROW_LEN {
        Err(EscrowError::InvalidAccountData)
    } else {
        Ok(decode_record(s))
    }
}

pub open spec fn loaded_view(r: Result<Escrow, EscrowError>) -> Result<EscrowView, EscrowError> {
    match r {
        Ok(e) => Ok(e@),
        Err(err) => Err(err),
    }
}

/// The 32 bytes of `bytes` from `off` on, as an identity.
pub fn read_address(bytes: &[u8], off: usize) -> (r: Address)
    requires
        off + 32 <= bytes@.len(),
    ensures
        r@ == bytes@.subrange(off as int, off + 32),
{
    let n = bytes.len();
    let mut a: Address = [0u8; 32];
    let mut i: usize = 0;
    while i < 32
        invariant
            i <= 32,
            n == bytes@.len(),
            off + 32 <= bytes@.len(),
            a@.len() == 32,
            forall|j: int| 0 <= j < i ==> a@[j] == bytes@[off + j],
        decreases 32 - i,
    {
        a[i] = bytes[off + i];
        i = i + 1;
    }
    assert(a@ =~= bytes@.subrange(off as int, off + 32));
    a
}

impl Escrow {
    /// A record with the given terms.
    pub fn set_inner(
        &mut self,
        seed: u64,
        maker: Address,
        mint_a: Address,
        mint_b: Address,
        receive: u64,
        bump: u8,
    )
        ensures
            *final(self) == (Escrow { seed, maker, mint_a, mint_b, receive, bump }),
    {
        self.seed = seed;
        self.maker = maker;
        self.mint_a = mint_a;
        self.mint_b = mint_b;
        self.receive = receive;
        self.bump = bump;
    }

    pub fn set_seed(&mut self, seed: u64)
        ensures
            *final(self) == (Escrow { seed, ..*old(self) }),
    {
        self.seed = seed;
    }

    pub fn set_maker(&mut self, maker: Address)
        ensures
            *final(self) == (Escrow { maker, ..*old(self) }),
    {
        self.maker = maker;
    }

    pub fn set_mint_a(&mut self, mint_a: Address)
        ensures
            *final(self) == (Escrow { mint_a, ..*old(self) }),
    {
        self.mint_a = mint_a;
    }

    pub fn set_mint_b(&mut self, mint_b: Address)
        ensures
            *final(self) == (Escrow { mint_b, ..*old(self) }),
    {
        self.mint_b = mint_b;
    }

    pub fn set_receive(&mut self, receive: u64)
        ensures
            *final(self) == (Escrow { receive, ..*old(self) }),
    {
        self.receive = receive;
    }

    pub fn set_bump(&mut self, bump: u8)
        ensures
            *final(self) == (Escrow { bump, ..*old(self) }),
    {
        self.bump = bump;
    }

    /// Decodes a record from the front of an account's data; the buffer may be
    /// longer than the layout, but not shorter.
    pub fn load(bytes: &[u8]) -> (r: Result<Escrow, EscrowError>)
        ensures
            loaded_view(r) == load_record(bytes@),
    {
        if bytes.len() < ESCROW_LEN {
            return Err(EscrowError::InvalidAccountData);
        }
        let seed = u64_from_le_bytes(vstd::slice::slice_subrange(bytes, 0, 8));
        let maker = read_address(bytes, 8);
        let mint_a = read_address(bytes, 40);
        let mint_b = read_address(bytes, 72);
        let receive = u64_from_le_bytes(vstd::slice::slice_subrange(bytes, 104, 112));
        let bump = bytes[112];
        let e = Escrow { seed, maker, mint_a, mint_b, receive, bump };
        assert(e@ == decode_record(bytes@));
        Ok(e)
    }

    /// The record's fixed-layout encoding, `ESCROW_LEN` bytes long.
    pub fn encode(&self) -> (r: Vec<u8>)
        ensures
            r@ == encode_record(self@),
            r@.len() == ESCROW_LEN,
    {
        proof {
            lemma_auto_spec_u64_to_from_le_bytes();
        }
        let mut out = u64_to_le_bytes(self.seed);
        let mut maker = address_bytes(&self.maker);
        out.append(&mut maker);
        let mut mint_a = address_bytes(&self.mint_a);
        out.append(&mut mint_a);
        let mut mint_b = address_bytes(&self.mint_b);
        out.append(&mut mint_b);
        let mut receive = u64_to_le_bytes(self.receive);
        out.append(&mut receive);
        out.push(self.bump);
        out
    }

    /// Writes the record's encoding over the front of an account's data,
    /// leaving the rest of the buffer as it was; refused when the buffer is
    /// shorter than the layout.
    pub fn store(&self, data: &mut [u8]) -> (r: Result<(), EscrowError>)
        ensures
            old(data)@.len() < ESCROW_LEN ==> r == Err::<(), EscrowError>(EscrowError::InvalidAccountData)
                && final(data)@ == old(data)@,
            old(data)@.len() >= ESCROW_LEN ==> r is Ok && final(data)@ == encode_record(self@)
                + old(data)@.subrange(ESCROW_LEN as int, old(data)@.len() as int),
    {
        let n = data.len();
        if n < ESCROW_LEN {
            return Err(EscrowError::InvalidAccountData);
        }
        let bytes = self.encode();
        let mut i: usize = 0;
        while i < ESCROW_LEN
            invariant
                i <= ESCROW_LEN,
                bytes@.len() == ESCROW_LEN,
                data@.len() == old(data)@.len(),
                n == old(data)@.len(),
                old(data)@.len() >= ESCROW_LEN,
                forall|j: int| 0 <= j < i ==> data@[j] == bytes@[j],
                forall|j: int| i <= j < data@.len() ==> data@[j] == old(data)@[j],
            decreases ESCROW_LEN - i,
        {
            data[i] = bytes[i];
            i = i + 1;
        }
        assert(data@ =~= bytes@ + old(data)@.subrange(ESCROW_LEN as int, old(data)@.len() as int));
        Ok(())
    }
}

/// Decoding an encoded record gives the record back.
pub proof fn lemma_decode_encode(e: EscrowView)
    requires
        e.wf(),
    ensures
        encode_record(e).len() == ESCROW_LEN,
        load_record(encode_record(e)) == Ok::<EscrowView, EscrowError>(e),
{
    lemma_auto_spec_u64_to_from_le_bytes();
    let s = encode_record(e);
    assert(s.subrange(0, 8) =~= spec_u64_to_le_bytes(e.seed));
    assert(s.subrange(8, 40) =~= e.maker);
    assert(s.subrange(40, 72) =~= e.mint_a);
    assert(s.subrange(72, 104) =~= e.mint_b);
    assert(s.subrange(104, 112) =~= spec_u64_to_le_bytes(e.receive));
    assert(decode_record(s) == e);
}

} // verus!

use anchor_lang::solana_program::pubkey::Pubkey;
use vstd::prelude::*;

verus! {

/// A ledger identity: an account, a wallet, a token mint or a program, as its 32 bytes.
#[derive(Clone, Copy, Debug, Eq)]
pub struct Address {
    pub bytes: [u8; 32],
}

impl PartialEq for Address {
    fn eq(&self, o: &Address) -> (r: bool) {
        let mut i: usize = 0;
        while i < 32
            invariant
                i <= 32,
                self.bytes@.subrange(0, i as int) == o.bytes@.subrange(0, i as int),
            decreases 32 - i,
        {
            if self.bytes[i] != o.bytes[i] {
                assert(self.bytes@[i as int] != o.bytes@[i as int]);
                return false;
            }
            assert(self.bytes@.subrange(0, i + 1) =~= self.bytes@.subrange(0, i as int).push(self.bytes@[i as int]));
            assert(o.bytes@.subrange(0, i + 1) =~= o.bytes@.subrange(0, i as int).push(o.bytes@[i as int]));
            i = i + 1;
        }
        assert(self.bytes@ =~= self.bytes@.subrange(0, 32));
        assert(o.bytes@ =~= o.bytes@.subrange(0, 32));
        true
    }
}

impl vstd::std_specs::cmp::PartialEqSpecImpl for Address {
    open spec fn obeys_eq_spec() -> bool {
        true
    }

    open spec fn eq_spec(&self, o: &Address) -> bool {
        self.bytes@ == o.bytes@
    }
}

/// Whether two addresses are the same identity.
pub open spec fn same(a: Address, b: Address) -> bool {
    a.bytes@ == b.bytes@
}

/// The seed prefix that marks an offer record's address.
pub const OFFER_SEED: [u8; 5] = [111, 102, 102, 101, 114];

/// The `k` low bytes of `n`, least significant first.
pub open spec fn le_bytes(n: nat, k: nat) -> Seq<u8>
    decreases k,
{
    if k == 0 {
        Seq::empty()
    } else {
        seq![(n % 256) as u8] + le_bytes(n / 256, (k - 1) as nat)
    }
}

/// The seeds from which the address of the offer `(maker, id)` is derived:
/// the marker "offer", the maker's bytes, and the id as eight little-endian bytes.
pub open spec fn offer_seeds(maker: Seq<u8>, id: u64) -> Seq<Seq<u8>> {
    seq![OFFER_SEED@, maker, le_bytes(id as nat, 8)]
}

/// What the ledger derives from a list of seeds under a program id: an address
/// off the signing curve together with its bump seed, or nothing when no bump
/// seed gives one.
pub uninterp spec fn program_address_of(seeds: Seq<Seq<u8>>, program_id: Seq<u8>) -> Option<(Seq<u8>, u8)>;

/// The view of a derived address and bump as plain values.
pub open spec fn derived_view(r: Option<(Address, u8)>) -> Option<(Seq<u8>, u8)> {
    match r {
        Some((a, b)) => Some((a.bytes@, b)),
        None => None,
    }
}

/// Relies on Pubkey::try_find_program_address: the derived address and its bump
/// seed depend on the seeds and the program id alone.
#[verifier::external_body]
fn find_program_address(seeds: &Vec<Vec<u8>>, program_id: &Address) -> (r: Option<(Address, u8)>)
    ensures
        derived_view(r) == program_address_of(seeds.deep_view(), program_id.bytes@),
{
    let slices: Vec<&[u8]> = seeds.iter().map(|s| s.as_slice()).collect();
    let program = Pubkey::new_from_array(program_id.bytes);
    Pubkey::try_find_program_address(&slices, &program).map(|(a, b)| (Address { bytes: a.to_bytes() }, b))
}

/// The eight little-endian bytes of `n`.
pub fn u64_le_bytes(n: u64) -> (r: Vec<u8>)
    ensures
        r@ == le_bytes(n as nat, 8),
{
    let mut out: Vec<u8> = Vec::new();
    let mut rest: u64 = n;
    let mut k: usize = 0;
    while k < 8
        invariant
            k <= 8,
            out@ + le_bytes(rest as nat, (8 - k) as nat) == le_bytes(n as nat, 8),
        decreases 8 - k,
    {
        proof {
            assert(le_bytes(rest as nat, (8 - k) as nat) == seq![(rest as nat % 256) as u8] + le_bytes(
                rest as nat / 256,
                (8 - k - 1) as nat,
            ));
            assert(out@.push((rest % 256) as u8) + le_bytes((rest / 256) as nat, (8 - k - 1) as nat)
                =~= out@ + le_bytes(rest as nat, (8 - k) as nat));
        }
        out.push((rest % 256) as u8);
        rest = rest / 256;
        k = k + 1;
    }
    proof {
        assert(out@ + le_bytes(rest as nat, 0) =~= out@);
    }
    out
}

/// The seeds of the offer `(maker, id)`, as the derivation takes them.
pub fn offer_seed_list(maker: &Address, id: u64) -> (r: Vec<Vec<u8>>)
    ensures
        r.deep_view() == offer_seeds(maker.bytes@, id),
{
    let mut prefix: Vec<u8> = Vec::new();
    let mut i: usize = 0;
    while i < 5
        invariant
            i <= 5,
            prefix@ == OFFER_SEED@.subrange(0, i as int),
        decreases 5 - i,
    {
        prefix.push(OFFER_SEED[i]);
        i = i + 1;
        assert(prefix@ =~= OFFER_SEED@.subrange(0, i as int));
    }
    let mut key: Vec<u8> = Vec::new();
    let mut j: usize = 0;
    while j < 32
        invariant
            j <= 32,
            key@ == maker.bytes@.subrange(0, j as int),
        decreases 32 - j,
    {
        key.push(maker.bytes[j]);
        j = j + 1;
        assert(key@ =~= maker.bytes@.subrange(0, j as int));
    }
    assert(prefix@ =~= OFFER_SEED@);
    assert(key@ =~= maker.bytes@);
    let tail = u64_le_bytes(id);
    let ghost parts = seq![prefix@, key@, tail@];
    let mut r: Vec<Vec<u8>> = Vec::new();
    r.push(prefix);
    r.push(key);
    r.push(tail);
    assert(r@[0].deep_view() =~= parts[0]);
    assert(r@[1].deep_view() =~= parts[1]);
    assert(r@[2].deep_view() =~= parts[2]);
    assert(r.deep_view() =~= parts);
    assert(r.deep_view() =~= offer_seeds(maker.bytes@, id));
    r
}

/// The vault authority of the offer `(maker, id)`: the address, with its bump
/// seed, that the program derives from the offer's seeds. It holds no secret,
/// so the program can sign for the vault whenever it recomputes it.
pub fn vault_authority(program_id: &Address, maker: &Address, id: u64) -> (r: Option<(Address, u8)>)
    ensures
        derived_view(r) == program_address_of(offer_seeds(maker.bytes@, id), program_id.bytes@),
{
    let seeds = offer_seed_list(maker, id);
    find_program_address(&seeds, program_id)
}

} // verus!

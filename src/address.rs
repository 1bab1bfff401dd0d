use vstd::prelude::*;
use crate::error::ErrorCode;

verus! {

/// The most seeds that an address derivation accepts, the appended bump included.
pub const MAX_SEEDS: usize = 16;

/// The longest single seed, in bytes, that an address derivation accepts.
pub const MAX_SEED_LEN: usize = 32;

/// The id of the program that owns every record, whose base58 form is
/// `HcENn31gno9LMse5iERziSpLGjMdtLZAxLQo9Ff4xn5b`.
pub const PROGRAM_ID: [u8; 32] = [
    246, 193, 113, 92, 96, 147, 43, 154, 157, 88, 20, 214, 103, 94, 103, 1,
    95, 103, 202, 151, 11, 78, 228, 0, 56, 50, 175, 120, 124, 61, 239, 102,
];

/// A 32-byte account identity.
#[derive(Clone, Copy, Debug, PartialEq, Eq)]
pub struct Address {
    pub bytes: [u8; 32],
}

impl View for Address {
    type V = Seq<u8>;

    open spec fn view(&self) -> Seq<u8> {
        self.bytes@
    }
}

impl Address {
    pub fn new(bytes: [u8; 32]) -> (r: Address)
        ensures
            r.bytes == bytes,
    {
        Address { bytes }
    }

    /// The all-zero address, which no signer holds.
    pub fn zero() -> (r: Address)
        ensures
            r@ == Seq::new(32, |i: int| 0u8),
    {
        let r = Address { bytes: [0u8; 32] };
        assert(r@ =~= Seq::new(32, |i: int| 0u8));
        r
    }

    pub fn to_bytes(&self) -> (r: [u8; 32])
        ensures
            r@ == self@,
    {
        self.bytes
    }

    /// Whether two addresses hold the same bytes.
    pub fn same(&self, other: &Address) -> (r: bool)
        ensures
            r == (self@ == other@),
    {
        let mut i: usize = 0;
        while i < 32
            invariant
                0 <= i <= 32,
                self@.len() == 32,
                other@.len() == 32,
                forall|j: int| 0 <= j < i ==> self@[j] == other@[j],
            decreases 32 - i,
        {
            if self.bytes[i] != other.bytes[i] {
                return false;
            }
            i = i + 1;
        }
        assert(self@ =~= other@);
        true
    }
}

/// The byte strings of a seed list.
pub open spec fn seeds_view(seeds: Seq<Vec<u8>>) -> Seq<Seq<u8>> {
    seeds.map_values(|s: Vec<u8>| s@)
}

/// Whether a seed list stays within the derivation's budget: fewer seeds than
/// `MAX_SEEDS`, which leaves room for the bump, and none longer than
/// `MAX_SEED_LEN` bytes.
pub open spec fn seeds_fit(seeds: Seq<Seq<u8>>) -> bool {
    &&& seeds.len() < MAX_SEEDS
    &&& forall|i: int| 0 <= i < seeds.len() ==> #[trigger] seeds[i].len() <= MAX_SEED_LEN
}

/// The program-derived address and bump for a seed list under a program id,
/// `None` where no bump yields an address off the curve.
pub uninterp spec fn program_address(seeds: Seq<Seq<u8>>, program_id: Seq<u8>) -> Option<(Seq<u8>, u8)>;

/// Relies on `Pubkey::try_find_program_address` of solana-program: its result
/// depends on the seeds and the program id alone, and it is `None` when the
/// seeds leave no room for the bump or a seed is longer than `MAX_SEED_LEN`.
#[verifier::external_body]
fn find_program_address(seeds: &Vec<Vec<u8>>, program_id: &[u8; 32]) -> (r: Option<([u8; 32], u8)>)
    ensures
        match r {
            Some(p) => program_address(seeds_view(seeds@), program_id@) == Some((p.0@, p.1)),
            None => program_address(seeds_view(seeds@), program_id@) is None,
        },
        !seeds_fit(seeds_view(seeds@)) ==> r is None,
{
    let refs: Vec<&[u8]> = seeds.iter().map(|s| s.as_slice()).collect();
    let id = anchor_lang::prelude::Pubkey::new_from_array(*program_id);
    anchor_lang::prelude::Pubkey::try_find_program_address(&refs, &id).map(|(a, b)| (a.to_bytes(), b))
}

/// What `resolve` gives for a seed list: the budget is checked first, then
/// the derivation decides.
pub open spec fn resolve_spec(seeds: Seq<Seq<u8>>, program_id: Seq<u8>) -> Result<(Seq<u8>, u8), ErrorCode> {
    if !seeds_fit(seeds) {
        Err(ErrorCode::SeedTooLong)
    } else {
        match program_address(seeds, program_id) {
            Some(p) => Ok(p),
            None => Err(ErrorCode::NoViableBump),
        }
    }
}

/// The address of a resolved seed list, viewed as bytes.
pub open spec fn resolved_view(r: Result<(Address, u8), ErrorCode>) -> Result<(Seq<u8>, u8), ErrorCode> {
    match r {
        Ok(p) => Ok((p.0@, p.1)),
        Err(e) => Err(e),
    }
}

/// Derives the identity of a record from its seeds: the same seeds and program
/// id always give the same address and bump.
pub fn resolve(seeds: &Vec<Vec<u8>>, program_id: &Address) -> (r: Result<(Address, u8), ErrorCode>)
    ensures
        resolved_view(r) == resolve_spec(seeds_view(seeds@), program_id@),
{
    let n = seeds.len();
    if n >= MAX_SEEDS {
        return Err(ErrorCode::SeedTooLong);
    }
    let mut i: usize = 0;
    while i < n
        invariant
            n == seeds@.len(),
            n < MAX_SEEDS,
            0 <= i <= n,
            forall|j: int| 0 <= j < i ==> #[trigger] seeds_view(seeds@)[j].len() <= MAX_SEED_LEN,
        decreases n - i,
    {
        if seeds[i].len() > MAX_SEED_LEN {
            assert(seeds_view(seeds@)[i as int].len() > MAX_SEED_LEN);
            return Err(ErrorCode::SeedTooLong);
        }
        i = i + 1;
    }
    assert(seeds_fit(seeds_view(seeds@)));
    match find_program_address(seeds, &program_id.bytes) {
        Some(p) => Ok((Address::new(p.0), p.1)),
        None => Err(ErrorCode::NoViableBump),
    }
}

/// The eight little-endian bytes of a `u64`.
pub open spec fn le_bytes_spec(x: u64) -> Seq<u8> {
    seq![
        (x & 0xff) as u8,
        ((x >> 8u64) & 0xff) as u8,
        ((x >> 16u64) & 0xff) as u8,
        ((x >> 24u64) & 0xff) as u8,
        ((x >> 32u64) & 0xff) as u8,
        ((x >> 40u64) & 0xff) as u8,
        ((x >> 48u64) & 0xff) as u8,
        ((x >> 56u64) & 0xff) as u8,
    ]
}

/// The little-endian encoding of a `u64`, as a seed.
pub fn le_bytes(x: u64) -> (r: Vec<u8>)
    ensures
        r@ == le_bytes_spec(x),
{
    let r = vec![
        (x & 0xff) as u8,
        ((x >> 8u64) & 0xff) as u8,
        ((x >> 16u64) & 0xff) as u8,
        ((x >> 24u64) & 0xff) as u8,
        ((x >> 32u64) & 0xff) as u8,
        ((x >> 40u64) & 0xff) as u8,
        ((x >> 48u64) & 0xff) as u8,
        ((x >> 56u64) & 0xff) as u8,
    ];
    assert(r@ =~= le_bytes_spec(x));
    r
}

} // verus!

use vstd::prelude::*;
use crate::error::TokenSaleError;

verus! {

/// The most seeds an address can be derived from, the bump included.
pub const MAX_SEEDS: usize = 16;

/// The greatest length of one seed, in bytes.
pub const MAX_SEED_LEN: usize = 32;

/// The bump at which the search for a sale's address starts.
pub const START_BUMP: u8 = 255;

/// The identity of an account or a signer: 32 bytes.
#[derive(Clone, Copy, Debug, PartialEq, Eq, Hash)]
pub struct Address {
    pub bytes: [u8; 32],
}

impl View for Address {
    type V = Seq<u8>;

    open spec fn view(&self) -> Seq<u8> {
        self.bytes@
    }
}

impl Address {
    /// Whether two addresses hold the same bytes.
    pub fn same(&self, other: &Address) -> (equal: bool)
        ensures
            equal == (self@ == other@),
            equal == (*self == *other),
    {
        let mut i: usize = 0;
        while i < 32
            invariant
                i <= 32,
                forall|j: int| 0 <= j < i ==> self.bytes[j] == other.bytes[j],
            decreases 32 - i,
        {
            if self.bytes[i] != other.bytes[i] {
                return false;
            }
            i += 1;
        }
        assert(self.bytes@ =~= other.bytes@);
        assert(self.bytes == other.bytes);
        true
    }
}

/// Two addresses with the same bytes are the same address.
pub proof fn same_bytes_same_address(a: Address, b: Address)
    requires
        a@ == b@,
    ensures
        a == b,
{
    assert(a.bytes@ =~= b.bytes@);
    assert(a.bytes == b.bytes);
}

/// The address that the ledger's hash gives a list of seeds under a program,
/// or `None` where the hash lands on an address that has a private key. Only
/// stated for seeds within the limits.
pub uninterp spec fn hashed_address(seeds: Seq<Seq<u8>>, program_id: Seq<u8>) -> Option<Seq<u8>>;

/// Whether 32 bytes are a point of the curve that the ledger signs on, as the
/// curve test of the ledger's SDK (`bytes_are_curve_point`) tells. The public
/// key of every key pair is such a point, so bytes that are none belong to no
/// key.
pub uninterp spec fn on_curve(address: Seq<u8>) -> bool;

/// The seeds are few enough and each is short enough to be hashed.
pub open spec fn seeds_fit(seeds: Seq<Seq<u8>>) -> bool {
    &&& seeds.len() <= MAX_SEEDS
    &&& forall|i: int| 0 <= i < seeds.len() ==> (#[trigger] seeds[i]).len() <= MAX_SEED_LEN
}

/// The program-owned address of a full seed list (bump included), if any.
pub open spec fn program_address(seeds: Seq<Seq<u8>>, program_id: Seq<u8>) -> Option<Seq<u8>> {
    if seeds_fit(seeds) {
        hashed_address(seeds, program_id)
    } else {
        None
    }
}

/// The address of the seeds with one bump appended as the last seed.
pub open spec fn address_at(seeds: Seq<Seq<u8>>, program_id: Seq<u8>, bump: u8) -> Option<
    Seq<u8>,
> {
    program_address(seeds.push(seq![bump]), program_id)
}

/// The search: the first bump, counting down from `start` to zero, at which
/// the seeds have an address, together with that address.
pub open spec fn find_from(seeds: Seq<Seq<u8>>, program_id: Seq<u8>, start: u8) -> Option<
    (Seq<u8>, u8),
>
    decreases start,
{
    match address_at(seeds, program_id, start) {
        Some(found) => Some((found, start)),
        None => if start == 0 {
            None
        } else {
            find_from(seeds, program_id, (start - 1) as u8)
        },
    }
}

/// Seeds that have an address at some bump are themselves within the limits:
/// at most fifteen of them, each of at most 32 bytes.
pub proof fn found_seeds_fit(seeds: Seq<Seq<u8>>, program_id: Seq<u8>, start: u8)
    requires
        find_from(seeds, program_id, start).is_some(),
    ensures
        seeds.len() < MAX_SEEDS,
        seeds_fit(seeds),
        find_from(seeds, program_id, start).unwrap().1 <= start,
        address_at(seeds, program_id, find_from(seeds, program_id, start).unwrap().1) == Some(
            find_from(seeds, program_id, start).unwrap().0,
        ),
    decreases start,
{
    if address_at(seeds, program_id, start).is_some() {
        let full = seeds.push(seq![start]);
        assert(seeds_fit(full));
        assert forall|i: int| 0 <= i < seeds.len() implies (#[trigger] seeds[i]).len()
            <= MAX_SEED_LEN by {
            assert(full[i] == seeds[i]);
        }
    } else {
        found_seeds_fit(seeds, program_id, (start - 1) as u8);
    }
}

/// The seeds of a list of byte strings, each by its content.
pub open spec fn seeds_view(seeds: &Vec<Vec<u8>>) -> Seq<Seq<u8>> {
    Seq::new(seeds@.len(), |i: int| seeds@[i]@)
}

/// An address and bump as plain values.
pub open spec fn found_view(found: Option<(Address, u8)>) -> Option<(Seq<u8>, u8)> {
    match found {
        Some((address, bump)) => Some((address@, bump)),
        None => None,
    }
}

/// Calls `Pubkey::create_program_address` of the ledger's SDK on the seeds as
/// they stand (the bump is the last of them). That function refuses more than
/// sixteen seeds and any seed longer than 32 bytes; otherwise it hashes the
/// seeds with the program id and refuses the hash exactly when it is a point
/// of the curve, so an address that it returns is none. Every refusal is
/// `None` here. The hash and the curve test are not spelled out:
/// `hashed_address` and `on_curve` name them. Believed, not proved.
#[verifier::external_body]
fn create_program_address(seeds: &Vec<Vec<u8>>, program_id: &Address) -> (found: Option<Address>)
    ensures
        found.is_some() ==> !on_curve(found.unwrap()@),
        !seeds_fit(seeds_view(seeds)) ==> found.is_none(),
        seeds_fit(seeds_view(seeds)) ==> match found {
            Some(address) => hashed_address(seeds_view(seeds), program_id@) == Some(address@),
            None => hashed_address(seeds_view(seeds), program_id@).is_none(),
        },
{
    let slices: Vec<&[u8]> = seeds.iter().map(|seed| seed.as_slice()).collect();
    let program = anchor_lang::prelude::Pubkey::new_from_array(program_id.bytes);
    match anchor_lang::prelude::Pubkey::create_program_address(&slices, &program) {
        Ok(key) => Some(Address { bytes: key.to_bytes() }),
        Err(_) => None,
    }
}

/// The address of `seeds` at one given bump, without a search. An address
/// that is returned is no point of the curve.
pub fn address_with_bump(seeds: Vec<Vec<u8>>, program_id: &Address, bump: u8) -> (found: Option<
    Address,
>)
    ensures
        found.is_some() ==> !on_curve(found.unwrap()@),
        match found {
            Some(address) => address_at(seeds_view(&seeds), program_id@, bump) == Some(address@),
            None => address_at(seeds_view(&seeds), program_id@, bump).is_none(),
        },
{
    let mut full = seeds;
    let mut last: Vec<u8> = Vec::new();
    last.push(bump);
    full.push(last);
    assert(seeds_view(&full) =~= seeds_view(&seeds).push(seq![bump])) by {
        assert(last@ =~= seq![bump]);
    }
    create_program_address(&full, program_id)
}

/// What the search returns on each input: the address and bump that
/// `find_from` gives, an address that is no point of the curve, or
/// `DerivationFailed` where it gives none.
pub open spec fn derive_post(
    seeds: Seq<Seq<u8>>,
    program_id: Seq<u8>,
    start_bump: u8,
    derived: Result<(Address, u8), TokenSaleError>,
) -> bool {
    match derived {
        Ok(found) => find_from(seeds, program_id, start_bump) == Some((found.0@, found.1))
            && !on_curve(found.0@),
        Err(e) => e == TokenSaleError::DerivationFailed && find_from(
            seeds,
            program_id,
            start_bump,
        ).is_none(),
    }
}

/// Searches for the address of `seeds` under `program_id`: tries `start_bump`,
/// then each smaller bump down to zero, and returns the first address found
/// with its bump. Fails with `DerivationFailed` when no bump in that range
/// gives an address, which includes seeds that are too many or too long.
pub fn derive_address(seeds: Vec<Vec<u8>>, program_id: &Address, start_bump: u8) -> (derived:
    Result<(Address, u8), TokenSaleError>)
    ensures
        derive_post(seeds_view(&seeds), program_id@, start_bump, derived),
{
    let ghost base = seeds_view(&seeds);
    let mut full = seeds;
    let slot: usize = full.len();
    let mut first: Vec<u8> = Vec::new();
    first.push(start_bump);
    full.push(first);
    let mut bump: u8 = start_bump;
    loop
        invariant
            bump <= start_bump,
            base == seeds_view(&seeds),
            slot == base.len(),
            full.len() == slot + 1,
            seeds_view(&full) =~= base.push(seq![bump]),
            find_from(base, program_id@, start_bump) == find_from(base, program_id@, bump),
        decreases bump,
    {
        match create_program_address(&full, program_id) {
            Some(address) => {
                return Ok((address, bump));
            },
            None => {},
        }
        if bump == 0 {
            return Err(TokenSaleError::DerivationFailed);
        }
        bump = bump - 1;
        let mut next: Vec<u8> = Vec::new();
        next.push(bump);
        full.set(slot, next);
        assert(seeds_view(&full) =~= base.push(seq![bump])) by {
            assert(next@ =~= seq![bump]);
            assert forall|i: int| 0 <= i < slot implies seeds_view(&full)[i] == base[i] by {
                assert(base[i] == base.push(seq![(bump + 1) as u8])[i]);
            }
        }
    }
}

/// The tag that marks an address as a sale's escrow: the first seed of every
/// sale.
pub open spec fn escrow_tag_bytes() -> Seq<u8> {
    seq![101u8, 115u8, 99u8, 114u8, 111u8, 119u8, 95u8, 112u8, 100u8, 97u8]
}

/// The escrow tag as bytes: the ASCII text `escrow_pda`.
pub fn escrow_tag() -> (tag: Vec<u8>)
    ensures
        tag@ == escrow_tag_bytes(),
{
    let tag: Vec<u8> = vec![101u8, 115u8, 99u8, 114u8, 111u8, 119u8, 95u8, 112u8, 100u8, 97u8];
    assert(tag@ =~= escrow_tag_bytes());
    tag
}

} // verus!

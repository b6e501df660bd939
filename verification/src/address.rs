//! Ledger addresses and deterministic program-derived address search.
//!
//! An [`Address`] is a 32-byte account identifier. A program-derived address
//! is found by appending a one-byte bump counter (starting at 255 and
//! descending) to a list of seed byte-strings and asking the ledger's
//! derivation function for an off-curve candidate; the search fails once the
//! counter reaches zero.

use vstd::prelude::*;

verus! {

/// A 32-byte ledger address.
pub struct Address {
    pub bytes: Vec<u8>,
}

impl Address {
    /// A well-formed address holds exactly 32 bytes.
    pub open spec fn wf(&self) -> bool {
        self.bytes@.len() == 32
    }

    /// Builds an address from its 32 raw bytes.
    pub fn from_bytes(bytes: Vec<u8>) -> (r: Address)
        requires
            bytes@.len() == 32,
        ensures
            r@ == bytes@,
            r.wf(),
    {
        Address { bytes }
    }
}

impl View for Address {
    type V = Seq<u8>;

    open spec fn view(&self) -> Seq<u8> {
        self.bytes@
    }
}

impl Clone for Address {
    fn clone(&self) -> (r: Self)
        ensures
            r@ == self@,
    {
        Address { bytes: clone_bytes(&self.bytes) }
    }
}

/// Copies a byte vector; the copy holds exactly the same bytes.
pub fn clone_bytes(v: &Vec<u8>) -> (r: Vec<u8>)
    ensures
        r@ == v@,
{
    let r = v.clone();
    proof {
        assert(r@ =~= v@);
    }
    r
}

/// The sequence of byte-strings held by a list of seed vectors.
pub open spec fn seeds_view(seeds: Seq<Vec<u8>>) -> Seq<Seq<u8>> {
    seeds.map_values(|v: Vec<u8>| v@)
}

/// The 32 bytes that a well-formed address string denotes, if any.
///
/// This names the result of the ledger's base58 address parser; it is a
/// function of the characters alone.
pub uninterp spec fn parsed_address(s: Seq<char>) -> Option<Seq<u8>>;

/// Relies on `solana_program::pubkey::Pubkey`'s `FromStr` impl: it base58-decodes
/// the string into exactly 32 bytes and rejects every other string; the result
/// depends on the characters alone.
#[verifier::external_body]
fn pubkey_from_str(s: &str) -> (r: Option<Address>)
    ensures
        r matches Some(a) ==> parsed_address(s@) == Some(a@) && a@.len() == 32,
        r is None ==> parsed_address(s@) is None,
{
    match s.parse::<solana_program::pubkey::Pubkey>() {
        Ok(p) => Some(Address { bytes: p.to_bytes().to_vec() }),
        Err(_) => None,
    }
}

/// Parses an address string, returning its 32 bytes when it is well-formed.
pub fn parse_address(s: &str) -> (r: Option<Address>)
    ensures
        r matches Some(a) ==> parsed_address(s@) == Some(a@) && a.wf(),
        r is None ==> parsed_address(s@) is None,
{
    pubkey_from_str(s)
}

/// The off-curve candidate that the ledger's derivation function yields for
/// the given seeds and owning program, or `None` when the candidate falls on
/// the curve.
///
/// This names the result of the ledger's address derivation; it is a function
/// of the seeds and program identifier alone.
pub uninterp spec fn pda_candidate(seeds: Seq<Seq<u8>>, program: Seq<u8>) -> Option<Seq<u8>>;

/// Relies on `solana_program::pubkey::Pubkey::create_program_address`: with at
/// most 16 seeds of at most 32 bytes each it returns the derived address
/// exactly when the sha-256 candidate falls off the ed25519 curve, and an
/// error otherwise; the result depends on the seeds and program id alone.
#[verifier::external_body]
fn create_program_address(seeds: &Vec<Vec<u8>>, program: &Address) -> (r: Option<Address>)
    requires
        program.wf(),
        seeds@.len() <= 16,
        forall|i: int| 0 <= i < seeds@.len() ==> #[trigger] seeds@[i]@.len() <= 32,
    ensures
        r matches Some(a) ==> pda_candidate(seeds_view(seeds@), program@) == Some(a@)
            && a@.len() == 32,
        r is None ==> pda_candidate(seeds_view(seeds@), program@) is None,
{
    let refs: Vec<&[u8]> = seeds.iter().map(|v| v.as_slice()).collect();
    let pk = solana_program::pubkey::Pubkey::new_from_array(
        program.bytes.as_slice().try_into().unwrap(),
    );
    match solana_program::pubkey::Pubkey::create_program_address(&refs, &pk) {
        Ok(p) => Some(Address { bytes: p.to_bytes().to_vec() }),
        Err(_) => None,
    }
}

/// The outcome of a bounded bump-seed search: either a derived address with
/// the bump that produced it, or exhaustion of the counter.
pub enum Derived {
    Found(Address, u8),
    Exhausted,
}

/// The mathematical outcome of a bump-seed search.
pub enum DerivedView {
    Found(Seq<u8>, u8),
    Exhausted,
}

impl View for Derived {
    type V = DerivedView;

    open spec fn view(&self) -> DerivedView {
        match self {
            Derived::Found(a, b) => DerivedView::Found(a@, *b),
            Derived::Exhausted => DerivedView::Exhausted,
        }
    }
}

/// The result of the bump search from `bump` downward: the first counter
/// value at or below `bump` whose candidate falls off the curve, or
/// exhaustion once the counter reaches zero (the counter value zero is never
/// tried).
pub open spec fn spec_find_pda(seeds: Seq<Seq<u8>>, program: Seq<u8>, bump: u8) -> DerivedView
    decreases bump,
{
    if bump == 0 {
        DerivedView::Exhausted
    } else {
        match pda_candidate(seeds.push(seq![bump]), program) {
            Some(a) => DerivedView::Found(a, bump),
            None => spec_find_pda(seeds, program, (bump - 1) as u8),
        }
    }
}

/// Searches for a program-derived address by appending a bump counter that
/// starts at 255 and descends; identical seed lists and program identifier
/// always yield the identical result, so callers may recompute rather than
/// cache.
pub fn find_program_address(seeds: &Vec<Vec<u8>>, program: &Address) -> (r: Derived)
    requires
        program.wf(),
        seeds@.len() <= 15,
        forall|i: int| 0 <= i < seeds@.len() ==> #[trigger] seeds@[i]@.len() <= 32,
    ensures
        r@ == spec_find_pda(seeds_view(seeds@), program@, 255),
        r matches Derived::Found(a, _) ==> a.wf(),
{
    let ghost sv = seeds_view(seeds@);
    let mut ext: Vec<Vec<u8>> = Vec::new();
    let mut i: usize = 0;
    while i < seeds.len()
        invariant
            i <= seeds@.len(),
            ext@.len() == i,
            forall|j: int| 0 <= j < i ==> #[trigger] ext@[j]@ == seeds@[j]@,
        decreases seeds@.len() - i,
    {
        ext.push(clone_bytes(&seeds[i]));
        i += 1;
    }
    let mut bump: u8 = 255;
    let mut bump_seed: Vec<u8> = Vec::new();
    bump_seed.push(bump);
    ext.push(bump_seed);
    loop
        invariant
            program.wf(),
            1 <= bump,
            ext@.len() == seeds@.len() + 1,
            forall|j: int| 0 <= j < seeds@.len() ==> #[trigger] ext@[j]@ == seeds@[j]@,
            ext@[seeds@.len() as int]@ == seq![bump],
            seeds@.len() <= 15,
            forall|j: int| 0 <= j < seeds@.len() ==> #[trigger] seeds@[j]@.len() <= 32,
            spec_find_pda(sv, program@, 255) == spec_find_pda(sv, program@, bump),
            sv == seeds_view(seeds@),
        decreases bump,
    {
        proof {
            assert(seeds_view(ext@) =~= sv.push(seq![bump]));
        }
        match create_program_address(&ext, program) {
            Some(a) => {
                return Derived::Found(a, bump);
            },
            None => {
                if bump == 1 {
                    return Derived::Exhausted;
                }
                bump = bump - 1;
                ext.pop();
                let mut bump_seed: Vec<u8> = Vec::new();
                bump_seed.push(bump);
                ext.push(bump_seed);
            },
        }
    }
}

/// Two searches from the same seeds and program identifier return the same
/// address and bump: derivation is deterministic and idempotent.
pub proof fn lemma_find_pda_deterministic(
    seeds1: Seq<Seq<u8>>,
    program1: Seq<u8>,
    seeds2: Seq<Seq<u8>>,
    program2: Seq<u8>,
)
    requires
        seeds1 == seeds2,
        program1 == program2,
    ensures
        spec_find_pda(seeds1, program1, 255) == spec_find_pda(seeds2, program2, 255),
{
}

} // verus!

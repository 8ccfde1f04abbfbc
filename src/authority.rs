use vstd::prelude::*;

use anchor_lang::solana_program::pubkey::Pubkey;

verus! {

/// A 32-byte account address: an owner, a mint, a program or a derived vault.
#[derive(Debug, Clone, Copy, PartialEq, Eq)]
pub struct Address {
    pub bytes: [u8; 32],
}

impl View for Address {
    type V = Seq<u8>;

    open spec fn view(&self) -> Seq<u8> {
        self.bytes@
    }
}

impl Address {
    pub fn new(bytes: [u8; 32]) -> (r: Address)
        ensures
            r@ == bytes@,
    {
        Address { bytes }
    }

    /// The address as a vector of its bytes.
    pub fn to_vec(&self) -> (r: Vec<u8>)
        ensures
            r@ == self@,
    {
        let mut r: Vec<u8> = Vec::new();
        let mut i: usize = 0;
        while i < 32
            invariant
                i <= 32,
                self@.len() == 32,
                r@ == self@.subrange(0, i as int),
            decreases 32 - i,
        {
            r.push(self.bytes[i]);
            i = i + 1;
            assert(r@ =~= self@.subrange(0, i as int));
        }
        assert(self@.subrange(0, 32) =~= self@);
        r
    }

    /// Whether two addresses hold the same bytes.
    pub fn same_as(&self, other: &Address) -> (r: bool)
        ensures
            r == (self@ == other@),
    {
        let mut i: usize = 0;
        while i < 32
            invariant
                i <= 32,
                self@.len() == 32,
                other@.len() == 32,
                forall|j: int| 0 <= j < i ==> self@[j] == other@[j],
            decreases 32 - i,
        {
            if self.bytes[i] != other.bytes[i] {
                return false;
            }
            i = i + 1;
        }
        assert(self@ =~= other@);
        true
    }
}

/// The address that a list of seeds and a program id derive, or `None` when
/// the seeds are out of bounds or hash to a point on the curve.
pub uninterp spec fn program_address(seeds: Seq<Seq<u8>>, program_id: Seq<u8>) -> Option<Seq<u8>>;

/// The byte contents of a list of seeds.
pub open spec fn seeds_view(seeds: Seq<Vec<u8>>) -> Seq<Seq<u8>> {
    seeds.map_values(|s: Vec<u8>| s@)
}

/// `seeds` followed by the one-byte bump seed.
pub open spec fn with_bump(seeds: Seq<Seq<u8>>, bump: u8) -> Seq<Seq<u8>> {
    seeds.push(seq![bump])
}

/// `bump` is the bump seed that a search from 255 downwards settles on: the
/// highest one, above zero, for which the seeds derive an address.
pub open spec fn is_canonical_bump(seeds: Seq<Seq<u8>>, program_id: Seq<u8>, bump: u8) -> bool {
    &&& bump >= 1
    &&& program_address(with_bump(seeds, bump), program_id) is Some
    &&& forall|c: u8| bump < c ==> program_address(with_bump(seeds, c), program_id) is None
}

/// The canonical derived address and bump for `seeds`, if any bump works.
pub open spec fn canonical_address(seeds: Seq<Seq<u8>>, program_id: Seq<u8>) -> Option<(Seq<u8>, u8)> {
    if exists|b: u8| is_canonical_bump(seeds, program_id, b) {
        let b = choose|b: u8| is_canonical_bump(seeds, program_id, b);
        Some((program_address(with_bump(seeds, b), program_id)->Some_0, b))
    } else {
        None
    }
}

/// Relies on `Pubkey::create_program_address`: its result depends on the seeds
/// and the program id alone; an error is reported as `None`.
#[verifier::external_body]
fn create_program_address(seeds: &Vec<Vec<u8>>, program_id: &Address) -> (r: Option<Address>)
    ensures
        match r {
            Some(a) => program_address(seeds_view(seeds@), program_id@) == Some(a@),
            None => program_address(seeds_view(seeds@), program_id@) is None,
        },
{
    let slices: Vec<&[u8]> = seeds.iter().map(|s| s.as_slice()).collect();
    Pubkey::create_program_address(&slices, &Pubkey::new_from_array(program_id.bytes))
        .ok()
        .map(|k| Address { bytes: k.to_bytes() })
}

/// Relies on `Pubkey::try_find_program_address`: it tries the bump seeds from
/// 255 down to 1 with `create_program_address` and returns the first address
/// found with its bump; `None` when none of them derives one.
#[verifier::external_body]
fn try_find_program_address(seeds: &Vec<Vec<u8>>, program_id: &Address) -> (r: Option<(Address, u8)>)
    ensures
        match r {
            Some((a, b)) => {
                &&& b >= 1
                &&& program_address(with_bump(seeds_view(seeds@), b), program_id@) == Some(a@)
                &&& forall|c: u8| b < c ==> program_address(with_bump(seeds_view(seeds@), c), program_id@) is None
            },
            None => forall|c: u8| 1 <= c ==> program_address(with_bump(seeds_view(seeds@), c), program_id@) is None,
        },
{
    let slices: Vec<&[u8]> = seeds.iter().map(|s| s.as_slice()).collect();
    Pubkey::try_find_program_address(&slices, &Pubkey::new_from_array(program_id.bytes))
        .map(|(k, b)| (Address { bytes: k.to_bytes() }, b))
}

/// The constant first seed of every vault address: the bytes of "vault".
pub open spec fn vault_prefix() -> Seq<u8> {
    seq![118u8, 97u8, 117u8, 108u8, 116u8]
}

/// The seeds of the vault of `owner`, without the bump.
pub open spec fn vault_seeds(owner: Seq<u8>) -> Seq<Seq<u8>> {
    seq![vault_prefix(), owner]
}

/// The address of `owner`'s vault under `bump`, if that bump derives one.
pub open spec fn vault_address(owner: Seq<u8>, bump: u8, program_id: Seq<u8>) -> Option<Seq<u8>> {
    program_address(with_bump(vault_seeds(owner), bump), program_id)
}

/// Builds the seeds of the vault of `owner`, without the bump.
pub fn vault_seeds_of(owner: &Address) -> (r: Vec<Vec<u8>>)
    ensures
        seeds_view(r@) == vault_seeds(owner@),
{
    let prefix: Vec<u8> = vec![118u8, 97u8, 117u8, 108u8, 116u8];
    let key = owner.to_vec();
    let r: Vec<Vec<u8>> = vec![prefix, key];
    assert(seeds_view(r@) =~= vault_seeds(owner@));
    r
}

/// Builds the signer seeds of the vault of `owner`: the seeds with the bump.
pub fn signer_seeds_of(owner: &Address, bump: u8) -> (r: Vec<Vec<u8>>)
    ensures
        seeds_view(r@) == with_bump(vault_seeds(owner@), bump),
{
    let mut r = vault_seeds_of(owner);
    let ghost before = r@;
    let last: Vec<u8> = vec![bump];
    assert(last@ =~= seq![bump]);
    r.push(last);
    assert(seeds_view(r@) =~= with_bump(seeds_view(before), bump));
    r
}

/// Re-derives the vault address of `owner` from `bump`.
pub fn derive_vault_address(owner: &Address, bump: u8, program_id: &Address) -> (r: Option<Address>)
    ensures
        match r {
            Some(a) => vault_address(owner@, bump, program_id@) == Some(a@),
            None => vault_address(owner@, bump, program_id@) is None,
        },
{
    let seeds = signer_seeds_of(owner, bump);
    create_program_address(&seeds, program_id)
}

/// Searches for the canonical vault address of `owner` and its bump.
pub fn find_vault_address(owner: &Address, program_id: &Address) -> (r: Option<(Address, u8)>)
    ensures
        match r {
            Some((a, b)) => canonical_address(vault_seeds(owner@), program_id@) == Some((a@, b)),
            None => canonical_address(vault_seeds(owner@), program_id@) is None,
        },
{
    let seeds = vault_seeds_of(owner);
    let r = try_find_program_address(&seeds, program_id);
    let ghost s = vault_seeds(owner@);
    let ghost pid = program_id@;
    match r {
        Some((a, b)) => {
            assert(is_canonical_bump(s, pid, b));
            let ghost c = choose|c: u8| is_canonical_bump(s, pid, c);
            assert(c == b) by {
                if c < b {
                    assert(program_address(with_bump(s, b), pid) is None);
                } else if b < c {
                    assert(program_address(with_bump(s, c), pid) is None);
                }
            }
        },
        None => {
            assert forall|c: u8| !is_canonical_bump(s, pid, c) by {
                if c >= 1 {
                    assert(program_address(with_bump(s, c), pid) is None);
                }
            }
        },
    }
    r
}

} // verus!

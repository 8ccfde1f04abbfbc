use vstd::prelude::*;

use crate::authority::{
    canonical_address, derive_vault_address, find_vault_address, vault_seeds, Address,
};
use crate::error::VaultError;

verus! {

/// The custody record of one owner, stored at the owner's derived vault
/// address.
#[derive(Debug, Clone, Copy, PartialEq, Eq)]
pub struct Vault {
    /// The controlling principal.
    pub owner: Address,
    /// The bump seed that, with the owner, re-derives the record's address.
    pub bump: u8,
    /// The account that receives the converted target asset.
    pub cbbtc_ata: Address,
}

impl Vault {
    /// Size of a stored record: owner, bump and settlement account.
    pub const LEN: usize = 32 + 1 + 32;
}

/// The caller asserting `owner` may act for the record stored at
/// `vault_address`: the owner matches, and the record's bump re-derives that
/// address from the owner.
pub open spec fn is_authorized(vault: Vault, vault_address: Seq<u8>, owner: Seq<u8>, program_id: Seq<u8>) -> bool {
    &&& vault.owner@ == owner
    &&& crate::authority::vault_address(owner, vault.bump, program_id) == Some(vault_address)
}

/// A caller asserting an owner other than the record's is never authorized,
/// whatever bump, address or program it presents.
pub proof fn lemma_foreign_owner_unauthorized(vault: Vault, vault_address: Seq<u8>, owner: Seq<u8>, program_id: Seq<u8>)
    requires
        vault.owner@ != owner,
    ensures
        !is_authorized(vault, vault_address, owner, program_id),
{
}

/// Checks that the caller asserting `owner` may act for the record stored at
/// `vault_address`; fails closed with `Unauthorized`.
pub fn validate_authority(
    vault: &Vault,
    vault_address: &Address,
    owner: &Address,
    program_id: &Address,
) -> (r: Result<(), VaultError>)
    ensures
        r == (if is_authorized(*vault, vault_address@, owner@, program_id@) {
            Ok(())
        } else {
            Err(VaultError::Unauthorized)
        }),
{
    if !vault.owner.same_as(owner) {
        return Err(VaultError::Unauthorized);
    }
    match derive_vault_address(owner, vault.bump, program_id) {
        Some(derived) => {
            if derived.same_as(vault_address) {
                Ok(())
            } else {
                Err(VaultError::Unauthorized)
            }
        },
        None => Err(VaultError::Unauthorized),
    }
}

/// The accounts of `initialize_vault`: the owner, who pays for and signs the
/// creation, the settlement account to bind, and the program that derives the
/// vault address.
#[derive(Debug, Clone, Copy, PartialEq, Eq)]
pub struct InitializeVault {
    pub owner: Address,
    pub cbbtc_ata: Address,
    pub program_id: Address,
}

/// The custody records in existence, keyed by their derived addresses.
pub struct VaultRegistry {
    entries: Vec<(Address, Vault)>,
    records: Ghost<Map<Seq<u8>, Vault>>,
}

impl View for VaultRegistry {
    type V = Map<Seq<u8>, Vault>;

    closed spec fn view(&self) -> Map<Seq<u8>, Vault> {
        self.records@
    }
}

/// What `initialize_vault` does to the records, and what it returns: the
/// address of the new record, or why none was created.
pub open spec fn initialize_spec(
    records: Map<Seq<u8>, Vault>,
    owner: Address,
    cbbtc_ata: Address,
    program_id: Seq<u8>,
) -> (Map<Seq<u8>, Vault>, Result<Seq<u8>, VaultError>) {
    match canonical_address(vault_seeds(owner@), program_id) {
        None => (records, Err(VaultError::DerivationFailed)),
        Some((address, bump)) => {
            if records.contains_key(address) {
                (records, Err(VaultError::AlreadyInitialized))
            } else {
                (
                    records.insert(address, Vault { owner, bump, cbbtc_ata }),
                    Ok(address),
                )
            }
        },
    }
}

impl VaultRegistry {
    /// The entries and the records agree.
    pub closed spec fn wf(&self) -> bool {
        &&& forall|i: int|
            0 <= i < self.entries@.len() ==> {
                &&& #[trigger] self.records@.contains_key(self.entries@[i].0@)
                &&& self.records@[self.entries@[i].0@] == self.entries@[i].1
            }
        &&& forall|k: Seq<u8>|
            #[trigger] self.records@.contains_key(k) ==> exists|i: int|
                0 <= i < self.entries@.len() && self.entries@[i].0@ == k
    }

    /// An empty registry.
    pub fn new() -> (r: VaultRegistry)
        ensures
            r.wf(),
            r@ == Map::<Seq<u8>, Vault>::empty(),
    {
        VaultRegistry { entries: Vec::new(), records: Ghost(Map::empty()) }
    }

    /// The record stored at `address`, if there is one.
    pub fn get(&self, address: &Address) -> (r: Option<Vault>)
        requires
            self.wf(),
        ensures
            r == (if self@.contains_key(address@) {
                Some(self@[address@])
            } else {
                None
            }),
    {
        let mut i: usize = 0;
        while i < self.entries.len()
            invariant
                self.wf(),
                i <= self.entries@.len(),
                forall|j: int| 0 <= j < i ==> self.entries@[j].0@ != address@,
            decreases self.entries@.len() - i,
        {
            if self.entries[i].0.same_as(address) {
                assert(self.records@.contains_key(self.entries@[i as int].0@));
                return Some(self.entries[i].1);
            }
            i = i + 1;
        }
        assert(!self.records@.contains_key(address@)) by {
            if self.records@.contains_key(address@) {
                let k = address@;
                assert(self.records@.contains_key(k));
            }
        }
        None
    }

    fn insert_new(&mut self, address: Address, vault: Vault)
        requires
            old(self).wf(),
            !old(self)@.contains_key(address@),
        ensures
            final(self).wf(),
            final(self)@ == old(self)@.insert(address@, vault),
    {
        self.entries.push((address, vault));
        self.records = Ghost(self.records@.insert(address@, vault));
        assert forall|k: Seq<u8>| #[trigger] self.records@.contains_key(k) implies exists|i: int|
            0 <= i < self.entries@.len() && self.entries@[i].0@ == k by {
            if k == address@ {
                assert(self.entries@[self.entries@.len() - 1].0@ == k);
            } else {
                assert(old(self).records@.contains_key(k));
                let i = choose|i: int| 0 <= i < old(self).entries@.len() && old(self).entries@[i].0@ == k;
                assert(self.entries@[i].0@ == k);
            }
        }
    }
}

/// Creates the custody record of the owner at its canonical derived address,
/// bound to the settlement account. No funds move. Fails, leaving the registry
/// as it was, when a record already exists at that address.
pub fn initialize_vault(registry: &mut VaultRegistry, ctx: &InitializeVault) -> (r: Result<Address, VaultError>)
    requires
        old(registry).wf(),
    ensures
        final(registry).wf(),
        final(registry)@ == initialize_spec(old(registry)@, ctx.owner, ctx.cbbtc_ata, ctx.program_id@).0,
        match r {
            Ok(a) => initialize_spec(old(registry)@, ctx.owner, ctx.cbbtc_ata, ctx.program_id@).1 == Ok::<Seq<u8>, VaultError>(a@),
            Err(e) => initialize_spec(old(registry)@, ctx.owner, ctx.cbbtc_ata, ctx.program_id@).1 == Err::<Seq<u8>, VaultError>(e),
        },
{
    let (address, bump) = match find_vault_address(&ctx.owner, &ctx.program_id) {
        Some(found) => found,
        None => return Err(VaultError::DerivationFailed),
    };
    if registry.get(&address).is_some() {
        return Err(VaultError::AlreadyInitialized);
    }
    let vault = Vault { owner: ctx.owner, bump, cbbtc_ata: ctx.cbbtc_ata };
    registry.insert_new(address, vault);
    Ok(address)
}

/// A second initialization for the same owner fails and changes nothing,
/// whatever settlement account it names.
pub proof fn lemma_initialize_once(
    records: Map<Seq<u8>, Vault>,
    owner: Address,
    cbbtc_ata: Address,
    other_ata: Address,
    program_id: Seq<u8>,
)
    ensures
        ({
            let (after, first) = initialize_spec(records, owner, cbbtc_ata, program_id);
            first is Ok ==> initialize_spec(after, owner, other_ata, program_id) == (
                after,
                Err::<Seq<u8>, VaultError>(VaultError::AlreadyInitialized),
            )
        }),
{
}

} // verus!

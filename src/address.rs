//! Principal and account addresses, and the deterministic derivation of a
//! check's address and of its vault's address from the check's identifier.
use anchor_lang::prelude::Pubkey;
use vstd::prelude::*;

verus! {

/// A 32-byte account address or principal identity.
#[derive(Clone, Copy, Debug)]
pub struct Address {
    pub bytes: [u8; 32],
}

impl View for Address {
    type V = Seq<u8>;

    open spec fn view(&self) -> Seq<u8> {
        self.bytes@
    }
}

impl Address {
    pub fn new(bytes: [u8; 32]) -> (r: Address)
        ensures
            r@ == bytes@,
    {
        Address { bytes }
    }

    /// Byte-wise equality of two addresses.
    pub fn same_as(&self, other: &Address) -> (r: bool)
        ensures
            r == (self@ == other@),
    {
        let mut i: usize = 0;
        while i < 32
            invariant
                i <= 32,
                self.bytes@.len() == 32,
                other.bytes@.len() == 32,
                forall|j: int| 0 <= j < i ==> self.bytes@[j] == other.bytes@[j],
            decreases 32 - i,
        {
            if self.bytes[i] != other.bytes[i] {
                return false;
            }
            i = i + 1;
        }
        proof {
            assert(self@ =~= other@);
        }
        true
    }
}

/// What the program-address search yields for the seeds `tag`, `seed` under
/// the program `program`: the first off-curve address with its bump, if any.
pub uninterp spec fn program_address_of(tag: Seq<u8>, seed: Seq<u8>, program: Seq<u8>) -> Option<(Seq<u8>, u8)>;

/// Relies on `Pubkey::try_find_program_address` (solana-address, as re-exported
/// by anchor-lang): a hash-based search whose result depends on the seeds and
/// the program id alone, and which returns `None` rather than panicking.
#[verifier::external_body]
fn try_find_program_address(tag: &[u8], seed: &[u8], program: &Address) -> (r: Option<(Address, u8)>)
    ensures
        match r {
            Some((a, bump)) => program_address_of(tag@, seed@, program@) == Some((a@, bump)),
            None => program_address_of(tag@, seed@, program@) is None,
        },
{
    match Pubkey::try_find_program_address(&[tag, seed], &Pubkey::new_from_array(program.bytes)) {
        Some((a, bump)) => Some((Address { bytes: a.to_bytes() }, bump)),
        None => None,
    }
}

/// A derived address together with the bump that makes it off-curve.
#[derive(Clone, Copy, Debug)]
pub struct Derivation {
    pub address: Address,
    pub bump: u8,
}

/// The namespace tag of check addresses (`"check"`).
pub open spec fn check_tag() -> Seq<u8> {
    seq![99u8, 104u8, 101u8, 99u8, 107u8]
}

/// The namespace tag of vault addresses (`"vault"`).
pub open spec fn vault_tag() -> Seq<u8> {
    seq![118u8, 97u8, 117u8, 108u8, 116u8]
}

/// The little-endian bytes of `id`.
pub open spec fn le_bytes(id: u64) -> Seq<u8> {
    seq![
        (id & 0xff) as u8,
        ((id >> 8u64) & 0xff) as u8,
        ((id >> 16u64) & 0xff) as u8,
        ((id >> 24u64) & 0xff) as u8,
        ((id >> 32u64) & 0xff) as u8,
        ((id >> 40u64) & 0xff) as u8,
        ((id >> 48u64) & 0xff) as u8,
        ((id >> 56u64) & 0xff) as u8,
    ]
}

pub fn id_le_bytes(id: u64) -> (r: [u8; 8])
    ensures
        r@ == le_bytes(id),
{
    let r: [u8; 8] = [
        (id & 0xff) as u8,
        ((id >> 8u64) & 0xff) as u8,
        ((id >> 16u64) & 0xff) as u8,
        ((id >> 24u64) & 0xff) as u8,
        ((id >> 32u64) & 0xff) as u8,
        ((id >> 40u64) & 0xff) as u8,
        ((id >> 48u64) & 0xff) as u8,
        ((id >> 56u64) & 0xff) as u8,
    ];
    assert(r@ =~= le_bytes(id));
    r
}

/// The address of the check `id` under `program`, with its bump.
pub open spec fn check_address(program: Seq<u8>, id: u64) -> Option<(Seq<u8>, u8)> {
    program_address_of(check_tag(), le_bytes(id), program)
}

/// The address of the vault of the check at `check`, with its bump.
pub open spec fn vault_address(program: Seq<u8>, check: Seq<u8>) -> Option<(Seq<u8>, u8)> {
    program_address_of(vault_tag(), check, program)
}

/// Whether `d` is what `derived` yields.
pub open spec fn derivation_matches(d: Option<Derivation>, derived: Option<(Seq<u8>, u8)>) -> bool {
    match d {
        Some(d) => derived == Some((d.address@, d.bump)),
        None => derived is None,
    }
}

/// Derives the address of the check `id` under `program`.
pub fn derive_address(program: &Address, id: u64) -> (r: Option<Derivation>)
    ensures
        derivation_matches(r, check_address(program@, id)),
{
    let tag: [u8; 5] = [99u8, 104u8, 101u8, 99u8, 107u8];
    assert(tag@ =~= check_tag());
    let seed = id_le_bytes(id);
    match try_find_program_address(tag.as_slice(), seed.as_slice(), program) {
        Some((address, bump)) => Some(Derivation { address, bump }),
        None => None,
    }
}

/// Derives the address of the vault of the check at `check` under `program`.
pub fn derive_vault_address(program: &Address, check: &Address) -> (r: Option<Derivation>)
    ensures
        derivation_matches(r, vault_address(program@, check@)),
{
    let tag: [u8; 5] = [118u8, 97u8, 117u8, 108u8, 116u8];
    assert(tag@ =~= vault_tag());
    match try_find_program_address(tag.as_slice(), check.bytes.as_slice(), program) {
        Some((address, bump)) => Some(Derivation { address, bump }),
        None => None,
    }
}

/// Derivation is a function of the identifier: two derivations of one
/// check identifier under one program give the same address and bump.
pub proof fn derivation_is_deterministic(program: Seq<u8>, id1: u64, id2: u64)
    requires
        id1 == id2,
    ensures
        check_address(program, id1) == check_address(program, id2),
        forall|d1: Option<Derivation>, d2: Option<Derivation>|
            derivation_matches(d1, check_address(program, id1)) && derivation_matches(
                d2,
                check_address(program, id2),
            ) ==> match (d1, d2) {
                (Some(a), Some(b)) => a.address@ == b.address@ && a.bump == b.bump,
                (None, None) => true,
                _ => false,
            },
{
}

} // verus!

use anchor_lang::prelude::Pubkey;
use vstd::prelude::*;
use vstd::std_specs::cmp::PartialEqSpecImpl;

verus! {

/// Thirty-two bytes that name an identity or a storage slot.
///
/// The same shape serves for the public key of a signer and for the
/// address at which a record is kept.
#[derive(Clone, Copy, Debug, Eq, Hash)]
pub struct Address {
    pub bytes: [u8; 32],
}

impl PartialEq for Address {
    /// Whether the two hold the same bytes.
    fn eq(&self, other: &Address) -> (same: bool) {
        let mut i: usize = 0;
        while i < 32
            invariant
                i <= 32,
                forall|j: int| 0 <= j < i ==> self.bytes[j] == other.bytes[j],
            decreases 32 - i,
        {
            if self.bytes[i] != other.bytes[i] {
                return false;
            }
            i += 1;
        }
        assert(self.bytes =~= other.bytes);
        true
    }
}

impl PartialEqSpecImpl for Address {
    open spec fn obeys_eq_spec() -> bool {
        true
    }

    open spec fn eq_spec(&self, other: &Address) -> bool {
        *self == *other
    }
}

impl View for Address {
    type V = Seq<u8>;

    open spec fn view(&self) -> Seq<u8> {
        self.bytes@
    }
}

/// The tag under which user accounts are derived: the ASCII text `user`.
pub const USER_SEED: [u8; 4] = [117, 115, 101, 114];

/// The program under which every account of the ledger is derived.
pub const PROGRAM_ID: [u8; 32] = [
    218, 7, 92, 178, 255, 94, 198, 129, 118, 19, 222, 83, 11, 105, 42, 135,
    53, 71, 119, 105, 218, 71, 67, 12, 189, 129, 84, 51, 92, 74, 131, 39,
];

/// What the host's search for a program-derived address yields for the
/// seeds `seeds` under the program `program_id`: the address and the bump
/// that led to it, or nothing where no bump lands off the curve or the
/// seeds are out of the host's limits.
pub uninterp spec fn program_address(seeds: Seq<Seq<u8>>, program_id: Seq<u8>) -> Option<(Seq<u8>, u8)>;

/// The bytes of a search result, for comparison with [`program_address`].
pub open spec fn found_view(found: Option<(Address, u8)>) -> Option<(Seq<u8>, u8)> {
    match found {
        Some((address, bump)) => Some((address@, bump)),
        None => None,
    }
}

/// Runs `Pubkey::try_find_program_address` on the two seeds `tag` and
/// `authority` under `program_id`.
///
/// Trusted: the search is a function of the seeds and the program alone, so
/// its result is the value that [`program_address`] names for them.
#[verifier::external_body]
fn find_program_address(tag: &[u8], authority: &Address, program_id: &[u8; 32]) -> (found: Option<(Address, u8)>)
    ensures
        found_view(found) == program_address(seq![tag@, authority@], program_id@),
{
    let program = Pubkey::new_from_array(*program_id);
    match Pubkey::try_find_program_address(&[tag, &authority.bytes], &program) {
        Some((address, bump)) => Some((Address { bytes: address.to_bytes() }, bump)),
        None => None,
    }
}

/// The address and bump derived for `authority` under `namespace_tag`.
pub open spec fn spec_derive(namespace_tag: Seq<u8>, authority: Address) -> Option<(Seq<u8>, u8)> {
    program_address(seq![namespace_tag, authority@], PROGRAM_ID@)
}

/// Derives the address that belongs to `authority` under `namespace_tag`,
/// with the bump that the search settled on.
pub fn derive_address(namespace_tag: &[u8], authority: &Address) -> (found: Option<(Address, u8)>)
    ensures
        found_view(found) == spec_derive(namespace_tag@, *authority),
{
    find_program_address(namespace_tag, authority, &PROGRAM_ID)
}

} // verus!

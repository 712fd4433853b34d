//! Actor keys and the derivation of record addresses from seeds.

use vstd::prelude::*;
use vstd::string::StringSliceAdditionalSpecFns;

verus! {

broadcast use vstd::array::group_array_axioms;

/// A 32-byte public key: an actor's identity, or a record's address.
#[derive(Clone, Copy, Debug, PartialEq, Eq)]
pub struct Key {
    pub bytes: [u8; 32],
}

impl Key {
    /// Byte-wise comparison of two keys.
    pub fn same(&self, other: &Key) -> (r: bool)
        ensures
            r == (*self == *other),
    {
        let mut i: usize = 0;
        while i < 32
            invariant
                0 <= i <= 32,
                forall|j: int| 0 <= j < i ==> self.bytes[j] == other.bytes[j],
            decreases 32 - i,
        {
            if self.bytes[i] != other.bytes[i] {
                return false;
            }
            i = i + 1;
        }
        assert(self.bytes =~= other.bytes);
        true
    }
}

/// The bytes of each key, in order.
pub open spec fn key_bytes(keys: Seq<Key>) -> Seq<Seq<u8>> {
    keys.map_values(|k: Key| k.bytes@)
}

/// The seeds of a record address: the bytes of a domain tag, then the keys
/// that the record binds.
pub open spec fn seeds_of(tag: &str, keys: Seq<Key>) -> Seq<Seq<u8>> {
    seq![tag.spec_bytes()] + key_bytes(keys)
}

/// The program-derived address and bump seed for a list of seeds under a
/// program id, or `None` where no bump seed gives an address off the curve.
pub uninterp spec fn program_address(seeds: Seq<Seq<u8>>, program_id: Seq<u8>) -> Option<(Seq<u8>, u8)>;

/// Relies on `Pubkey::try_find_program_address`: the address and bump seed
/// are a function of the seeds and the program id alone, and `None` comes
/// back where no bump seed works or the seeds break its limits.
#[verifier::external_body]
pub(crate) fn find_program_address(tag: &str, keys: &Vec<Key>, program_id: &Key) -> (r: Option<(Key, u8)>)
    ensures
        match r {
            Some((a, b)) => program_address(seeds_of(tag, keys@), program_id.bytes@) == Some((a.bytes@, b)),
            None => program_address(seeds_of(tag, keys@), program_id.bytes@) is None,
        },
{
    let mut seeds: Vec<&[u8]> = vec![tag.as_bytes()];
    seeds.extend(keys.iter().map(|k| &k.bytes[..]));
    let program = anchor_lang::prelude::Pubkey::new_from_array(program_id.bytes);
    anchor_lang::prelude::Pubkey::try_find_program_address(&seeds, &program)
        .map(|(a, b)| (Key { bytes: a.to_bytes() }, b))
}

} // verus!

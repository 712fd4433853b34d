//! The store of records, each at the address derived from its keys.

use vstd::prelude::*;
use crate::address::{Key, program_address, seeds_of};
use crate::state::{ConsentRecord, Credential, User, VerificationRequest};

verus! {

broadcast use vstd::array::group_array_axioms;

/// A record together with the address it is stored at.
#[derive(Clone, Debug)]
pub struct Stored<T> {
    pub address: Key,
    pub record: T,
}

/// Whether some entry of `s` is stored at address `a`.
pub open spec fn has_at<T>(s: Seq<Stored<T>>, a: Seq<u8>) -> bool {
    exists|i: int| 0 <= i < s.len() && #[trigger] s[i].address.bytes@ == a
}

/// The position of the entry stored at address `a`.
pub open spec fn index_at<T>(s: Seq<Stored<T>>, a: Seq<u8>) -> int {
    choose|i: int| 0 <= i < s.len() && #[trigger] s[i].address.bytes@ == a
}

/// The record stored at address `a`.
pub open spec fn record_at<T>(s: Seq<Stored<T>>, a: Seq<u8>) -> T {
    s[index_at(s, a)].record
}

/// No two entries of `s` share an address.
pub open spec fn unique_addresses<T>(s: Seq<Stored<T>>) -> bool {
    forall|i: int, j: int|
        0 <= i < s.len() && 0 <= j < s.len() && #[trigger] s[i].address.bytes@ == #[trigger] s[j].address.bytes@
            ==> i == j
}

/// Every entry of `s` satisfies `placed`.
pub open spec fn all_placed<T>(s: Seq<Stored<T>>, placed: spec_fn(Stored<T>) -> bool) -> bool {
    forall|i: int| 0 <= i < s.len() ==> placed(#[trigger] s[i])
}

/// Adding an entry at a free address keeps addresses unique, and keeps every
/// entry where `placed` wants it if the new one is.
pub proof fn lemma_push<T>(s: Seq<Stored<T>>, e: Stored<T>, placed: spec_fn(Stored<T>) -> bool)
    requires
        unique_addresses(s),
        !has_at(s, e.address.bytes@),
        all_placed(s, placed),
        placed(e),
    ensures
        unique_addresses(s.push(e)),
        all_placed(s.push(e), placed),
        has_at(s.push(e), e.address.bytes@),
        index_at(s.push(e), e.address.bytes@) == s.len(),
{
    let t = s.push(e);
    assert(t[s.len() as int].address.bytes@ == e.address.bytes@);
    assert forall|i: int, j: int|
        0 <= i < t.len() && 0 <= j < t.len() && #[trigger] t[i].address.bytes@ == #[trigger] t[j].address.bytes@
        implies i == j by {
        if i < s.len() && j < s.len() {
            assert(s[i] == t[i] && s[j] == t[j]);
        } else if i < s.len() {
            assert(s[i] == t[i]);
        } else if j < s.len() {
            assert(s[j] == t[j]);
        }
    }
    assert forall|i: int| 0 <= i < t.len() implies placed(#[trigger] t[i]) by {
        if i < s.len() {
            assert(t[i] == s[i]);
        }
    }
}

/// Replacing an entry by one at the same address keeps addresses unique,
/// and keeps every entry where `placed` wants it if the new one is.
pub proof fn lemma_update<T>(s: Seq<Stored<T>>, i: int, e: Stored<T>, placed: spec_fn(Stored<T>) -> bool)
    requires
        unique_addresses(s),
        0 <= i < s.len(),
        e.address == s[i].address,
        all_placed(s, placed),
        placed(e),
    ensures
        unique_addresses(s.update(i, e)),
        all_placed(s.update(i, e), placed),
{
    let t = s.update(i, e);
    assert forall|j: int, k: int|
        0 <= j < t.len() && 0 <= k < t.len() && #[trigger] t[j].address.bytes@ == #[trigger] t[k].address.bytes@
        implies j == k by {
        assert(t[j].address == s[j].address && t[k].address == s[k].address);
        assert(s[j].address.bytes@ == s[k].address.bytes@);
    }
    assert forall|j: int| 0 <= j < t.len() implies placed(#[trigger] t[j]) by {
        if j != i {
            assert(t[j] == s[j]);
        }
    }
}

/// Finds the entry stored at `a`.
pub fn find<T>(s: &Vec<Stored<T>>, a: &Key) -> (r: Option<usize>)
    requires
        unique_addresses(s@),
    ensures
        match r {
            Some(i) => has_at(s@, a.bytes@) && i == index_at(s@, a.bytes@),
            None => !has_at(s@, a.bytes@),
        },
{
    let mut i: usize = 0;
    while i < s.len()
        invariant
            0 <= i <= s@.len(),
            unique_addresses(s@),
            forall|j: int| 0 <= j < i ==> s@[j].address.bytes@ != a.bytes@,
        decreases s@.len() - i,
    {
        if s[i].address.same(a) {
            assert(s@[i as int].address.bytes@ == a.bytes@);
            let ghost k = index_at(s@, a.bytes@);
            assert(s@[k].address.bytes@ == s@[i as int].address.bytes@);
            return Some(i);
        }
        assert(s@[i as int].address.bytes@ != a.bytes@) by {
            if s@[i as int].address.bytes@ == a.bytes@ {
                assert(s@[i as int].address.bytes =~= a.bytes);
            }
        }
        i = i + 1;
    }
    None
}

/// The address and bump seed of `owner`'s identity.
pub open spec fn user_address(program_id: Key, owner: Key) -> Option<(Seq<u8>, u8)> {
    program_address(seeds_of("user", seq![owner]), program_id.bytes@)
}

/// The address and bump seed of `owner`'s credential.
pub open spec fn credential_address(program_id: Key, owner: Key) -> Option<(Seq<u8>, u8)> {
    program_address(seeds_of("credential", seq![owner]), program_id.bytes@)
}

/// The address and bump seed of `requester`'s verification request.
pub open spec fn verification_address(program_id: Key, requester: Key) -> Option<(Seq<u8>, u8)> {
    program_address(seeds_of("verification", seq![requester]), program_id.bytes@)
}

/// The address and bump seed of the consent from `data_owner` to `requester`.
pub open spec fn consent_address(program_id: Key, data_owner: Key, requester: Key) -> Option<(Seq<u8>, u8)> {
    program_address(seeds_of("consent", seq![data_owner, requester]), program_id.bytes@)
}

/// An identity sits at the address, with the bump seed, derived from its
/// owner.
pub open spec fn user_placed(program_id: Key) -> spec_fn(Stored<User>) -> bool {
    |e: Stored<User>| user_address(program_id, e.record.wallet_address) == Some((e.address.bytes@, e.record.bump))
}

/// A credential sits at the address, with the bump seed, derived from its
/// owner.
pub open spec fn credential_placed(program_id: Key) -> spec_fn(Stored<Credential>) -> bool {
    |e: Stored<Credential>| credential_address(program_id, e.record.user) == Some((e.address.bytes@, e.record.bump))
}

/// A verification request sits at the address, with the bump seed, derived
/// from its requester.
pub open spec fn verification_placed(program_id: Key) -> spec_fn(Stored<VerificationRequest>) -> bool {
    |e: Stored<VerificationRequest>|
        verification_address(program_id, e.record.requester) == Some((e.address.bytes@, e.record.bump))
}

/// A consent sits at the address, with the bump seed, derived from its data
/// owner and requester.
pub open spec fn consent_placed(program_id: Key) -> spec_fn(Stored<ConsentRecord>) -> bool {
    |e: Stored<ConsentRecord>|
        consent_address(program_id, e.record.data_owner, e.record.requester) == Some((e.address.bytes@, e.record.bump))
}

/// Every record of the registry, by kind, under one program id.
pub struct Registry {
    pub program_id: Key,
    pub users: Vec<Stored<User>>,
    pub credentials: Vec<Stored<Credential>>,
    pub verifications: Vec<Stored<VerificationRequest>>,
    pub consents: Vec<Stored<ConsentRecord>>,
}

impl Registry {
    /// Each kind of record has at most one entry per address, and each entry
    /// sits at the address, with the bump seed, derived from its own keys.
    pub open spec fn wf(&self) -> bool {
        &&& unique_addresses(self.users@)
        &&& unique_addresses(self.credentials@)
        &&& unique_addresses(self.verifications@)
        &&& unique_addresses(self.consents@)
        &&& all_placed(self.users@, user_placed(self.program_id))
        &&& all_placed(self.credentials@, credential_placed(self.program_id))
        &&& all_placed(self.verifications@, verification_placed(self.program_id))
        &&& all_placed(self.consents@, consent_placed(self.program_id))
    }

    /// An empty registry for the program `program_id`.
    pub fn new(program_id: Key) -> (r: Registry)
        ensures
            r.wf(),
            r.program_id == program_id,
            r.users@.len() == 0,
            r.credentials@.len() == 0,
            r.verifications@.len() == 0,
            r.consents@.len() == 0,
    {
        Registry {
            program_id,
            users: Vec::new(),
            credentials: Vec::new(),
            verifications: Vec::new(),
            consents: Vec::new(),
        }
    }
}

} // verus!

//! Where records live: a record's address is derived from seeds that name it and from
//! the identifier of the program that owns the ledger.

use vstd::prelude::*;
use crate::principal::{
    lemma_same_bytes, lemma_sort_pair_symmetric, sort_pair, spec_sort_pair, Principal,
};

verus! {

/// What `anchor_lang::prelude::Pubkey::try_find_program_address` returns for the given
/// seeds and the bytes of a program identifier: the bytes of the derived address with
/// its bump seed, or nothing when the seeds yield no address. It hashes its arguments
/// and depends on nothing else.
pub uninterp spec fn program_address(seeds: Seq<Seq<u8>>, program_id: Seq<u8>) -> Option<
    (Seq<u8>, u8),
>;

/// The seeds that name a record: a tag for the kind of record, then two identifiers.
#[derive(Debug, PartialEq, Eq)]
pub struct Seeds {
    /// Marks the kind of record.
    pub tag: Vec<u8>,
    /// The first identifier.
    pub first: Principal,
    /// The second identifier.
    pub second: Principal,
}

impl View for Seeds {
    type V = Seq<Seq<u8>>;

    /// The three byte strings, in the order in which they are hashed.
    open spec fn view(&self) -> Seq<Seq<u8>> {
        seq![self.tag@, self.first@, self.second@]
    }
}

/// The identifier made of the given 32 bytes.
pub open spec fn principal_of(bytes: Seq<u8>) -> Principal {
    choose|p: Principal| p@ == bytes
}

/// The address, as an identifier, that the seeds yield under the program, with its bump
/// seed.
pub open spec fn spec_derive_address(seeds: Seq<Seq<u8>>, program_id: Principal) -> Option<
    (Principal, u8),
> {
    match program_address(seeds, program_id@) {
        Some((bytes, bump)) => Some((principal_of(bytes), bump)),
        None => None,
    }
}

/// The seed that marks a thread: the ASCII bytes of `thread`.
pub open spec fn thread_tag() -> Seq<u8> {
    seq![0x74u8, 0x68u8, 0x72u8, 0x65u8, 0x61u8, 0x64u8]
}

/// The seed that marks an authorization: the ASCII bytes of `delegate`.
pub open spec fn delegate_tag() -> Seq<u8> {
    seq![0x64u8, 0x65u8, 0x6cu8, 0x65u8, 0x67u8, 0x61u8, 0x74u8, 0x65u8]
}

/// The seeds of the thread between `a` and `b`: the thread tag, then the two
/// identifiers in canonical order.
pub open spec fn spec_thread_seeds(a: Principal, b: Principal) -> Seq<Seq<u8>> {
    seq![thread_tag(), spec_sort_pair(a, b).0@, spec_sort_pair(a, b).1@]
}

/// The seeds of the authorization of `delegate` by `owner`: the delegate tag, then the
/// owner, then the delegate. The order is kept as given: who authorizes whom matters.
pub open spec fn spec_delegate_seeds(owner: Principal, delegate: Principal) -> Seq<Seq<u8>> {
    seq![delegate_tag(), owner@, delegate@]
}

/// The address of the thread between `a` and `b`.
pub open spec fn spec_thread_address(program_id: Principal, a: Principal, b: Principal) -> Option<
    (Principal, u8),
> {
    spec_derive_address(spec_thread_seeds(a, b), program_id)
}

/// The address of the authorization of `delegate` by `owner`.
pub open spec fn spec_delegate_address(
    program_id: Principal,
    owner: Principal,
    delegate: Principal,
) -> Option<(Principal, u8)> {
    spec_derive_address(spec_delegate_seeds(owner, delegate), program_id)
}

/// Calls `anchor_lang::prelude::Pubkey::try_find_program_address` on the three seeds,
/// in the order of the view, and on the program identifier. Nothing of this is proved:
/// it is taken on trust that what comes back is what `program_address` names for these
/// arguments, the address given by its bytes. The call fails on no input.
#[verifier::external_body]
fn find_address(seeds: &Seeds, program_id: &Principal) -> (r: Option<(Principal, u8)>)
    ensures
        match r {
            Some((address, bump)) => program_address(seeds@, program_id@) == Some(
                (address@, bump),
            ),
            None => program_address(seeds@, program_id@) is None,
        },
{
    let parts: [&[u8]; 3] = [seeds.tag.as_slice(), &seeds.first.bytes, &seeds.second.bytes];
    let id = anchor_lang::prelude::Pubkey::new_from_array(program_id.bytes);
    match anchor_lang::prelude::Pubkey::try_find_program_address(&parts, &id) {
        Some((key, bump)) => Some((Principal { bytes: key.to_bytes() }, bump)),
        None => None,
    }
}

/// The seeds of the thread between `a` and `b`, in either order of the two.
pub fn thread_seeds(a: &Principal, b: &Principal) -> (r: Seeds)
    ensures
        r@ == spec_thread_seeds(*a, *b),
{
    let (lower, higher) = sort_pair(*a, *b);
    let tag: Vec<u8> = vec![0x74u8, 0x68u8, 0x72u8, 0x65u8, 0x61u8, 0x64u8];
    assert(tag@ =~= thread_tag());
    Seeds { tag, first: lower, second: higher }
}

/// The seeds of the authorization of `delegate` by `owner`.
pub fn delegate_seeds(owner: &Principal, delegate: &Principal) -> (r: Seeds)
    ensures
        r@ == spec_delegate_seeds(*owner, *delegate),
{
    let tag: Vec<u8> = vec![0x64u8, 0x65u8, 0x6cu8, 0x65u8, 0x67u8, 0x61u8, 0x74u8, 0x65u8];
    assert(tag@ =~= delegate_tag());
    Seeds { tag, first: *owner, second: *delegate }
}

/// Derives the address that the seeds yield under the program.
pub fn derive_address(seeds: &Seeds, program_id: &Principal) -> (r: Option<(Principal, u8)>)
    ensures
        r == spec_derive_address(seeds@, *program_id),
{
    let found = find_address(seeds, program_id);
    proof {
        if let Some((address, bump)) = found {
            lemma_same_bytes(principal_of(address@), address);
        }
    }
    found
}

/// Derives the address of the thread between `a` and `b`. Either order of the two
/// gives the same address.
pub fn thread_address(program_id: &Principal, a: &Principal, b: &Principal) -> (r: Option<
    (Principal, u8),
>)
    ensures
        r == spec_thread_address(*program_id, *a, *b),
{
    let seeds = thread_seeds(a, b);
    derive_address(&seeds, program_id)
}

/// Derives the address of the authorization of `delegate` by `owner`.
pub fn delegate_address(program_id: &Principal, owner: &Principal, delegate: &Principal) -> (r:
    Option<(Principal, u8)>)
    ensures
        r == spec_delegate_address(*program_id, *owner, *delegate),
{
    let seeds = delegate_seeds(owner, delegate);
    derive_address(&seeds, program_id)
}

/// The seeds of a thread, and so its address, do not depend on the order in which its
/// two members are given.
pub proof fn lemma_thread_address_symmetric(program_id: Principal, a: Principal, b: Principal)
    ensures
        spec_thread_seeds(a, b) == spec_thread_seeds(b, a),
        spec_thread_address(program_id, a, b) == spec_thread_address(program_id, b, a),
{
    lemma_sort_pair_symmetric(a, b);
}

} // verus!

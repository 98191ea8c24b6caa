//! Deterministic record addresses.
//!
//! A record is located by a namespace tag and a tuple of key fields; there is
//! no directory. The address is the program-derived address that the Solana
//! runtime computes from those seeds and the program's identity.

use anchor_lang::prelude::Pubkey;
use vstd::prelude::*;
use vstd::bytes::*;
use vstd::slice::*;
use vstd::string::*;

verus! {

/// A 32-byte record or identity address.
#[derive(Clone, Copy, Debug, PartialEq, Eq)]
pub struct Address {
    pub bytes: [u8; 32],
}

impl View for Address {
    type V = Seq<u8>;

    open spec fn view(&self) -> Seq<u8> {
        self.bytes@
    }
}

impl Address {
    /// Byte-wise equality of two addresses.
    pub fn same(&self, other: &Address) -> (r: bool)
        ensures
            r == (self@ == other@),
            r == (*self == *other),
    {
        let mut i: usize = 0;
        while i < 32
            invariant
                i <= 32,
                forall|j: int| 0 <= j < i ==> self.bytes@[j] == other.bytes@[j],
            decreases 32 - i,
        {
            if self.bytes[i] != other.bytes[i] {
                return false;
            }
            i = i + 1;
        }
        proof {
            assert(self.bytes@ =~= other.bytes@);
            assert(self.bytes =~= other.bytes);
        }
        true
    }
}

/// A derived address together with the bump seed that produced it.
#[derive(Clone, Copy, Debug, PartialEq, Eq)]
pub struct Derived {
    pub address: Address,
    pub bump: u8,
}

/// The address and bump seed that the runtime derives from `seeds` under the
/// program `program_id`, or `None` where it derives none.
pub uninterp spec fn derived_address(seeds: Seq<Seq<u8>>, program_id: Seq<u8>) -> Option<(Seq<u8>, u8)>;

/// The seeds held by `seeds`, each as a sequence of bytes.
pub open spec fn seeds_view(seeds: &Vec<Vec<u8>>) -> Seq<Seq<u8>> {
    Seq::new(seeds@.len(), |i: int| seeds@[i]@)
}

/// Whether `d` is the derivation result `r`.
pub open spec fn is_derivation(d: Option<Derived>, r: Option<(Seq<u8>, u8)>) -> bool {
    match d {
        Some(d) => r == Some((d.address@, d.bump)),
        None => r is None,
    }
}

/// Identical seeds under the same program yield the identical address and
/// bump seed: two derivations with one result are equal.
pub proof fn lemma_derivation_is_deterministic(
    first: Option<Derived>,
    second: Option<Derived>,
    r: Option<(Seq<u8>, u8)>,
)
    requires
        is_derivation(first, r),
        is_derivation(second, r),
    ensures
        first == second,
{
    if let (Some(a), Some(b)) = (first, second) {
        assert(a.address.bytes@ == b.address.bytes@);
        assert(a.address.bytes =~= b.address.bytes);
    }
}

/// Calls `Pubkey::try_find_program_address`. Nothing is proved of it: the
/// contract only names the result as a function of the seeds and the program
/// identity, which is what the derivation is (a hash of its inputs, searched
/// over bump seeds from 255 downwards).
#[verifier::external_body]
fn find_program_address(seeds: &Vec<Vec<u8>>, program_id: &Address) -> (r: Option<Derived>)
    ensures
        is_derivation(r, derived_address(seeds_view(seeds), program_id@)),
{
    let parts: Vec<&[u8]> = seeds.iter().map(|s| s.as_slice()).collect();
    let program = Pubkey::new_from_array(program_id.bytes);
    match Pubkey::try_find_program_address(&parts, &program) {
        Some((key, bump)) => Some(Derived { address: Address { bytes: key.to_bytes() }, bump }),
        None => None,
    }
}

/// The identity of this program, under which all its records are addressed.
pub fn program_id() -> (r: Address)
    ensures
        r@ == program_id_bytes(),
{
    let r = Address {
        bytes: [
            210, 47, 151, 7, 48, 138, 76, 244, 162, 122, 196, 61, 17, 216, 190, 114,
            101, 89, 18, 103, 185, 79, 109, 155, 162, 12, 31, 130, 1, 236, 199, 46,
        ],
    };
    assert(r@ =~= program_id_bytes());
    r
}

/// The bytes of the program's identity.
pub open spec fn program_id_bytes() -> Seq<u8> {
    seq![
        210u8, 47, 151, 7, 48, 138, 76, 244, 162, 122, 196, 61, 17, 216, 190, 114,
        101, 89, 18, 103, 185, 79, 109, 155, 162, 12, 31, 130, 1, 236, 199, 46,
    ]
}

/// The address of the record filed under `tag` with one key field.
pub open spec fn address_of1(tag: &str, a: Address) -> Option<(Seq<u8>, u8)> {
    derived_address(seq![tag.spec_bytes(), a@], program_id_bytes())
}

/// The address of the record filed under `tag` with two key fields.
pub open spec fn address_of2(tag: &str, a: Address, b: Seq<u8>) -> Option<(Seq<u8>, u8)> {
    derived_address(seq![tag.spec_bytes(), a@, b], program_id_bytes())
}

fn derive1(tag: &str, a: &Address) -> (r: Option<Derived>)
    ensures
        is_derivation(r, address_of1(tag, *a)),
{
    let mut seeds: Vec<Vec<u8>> = Vec::new();
    seeds.push(slice_to_vec(tag.as_bytes()));
    seeds.push(slice_to_vec(a.bytes.as_slice()));
    assert(seeds_view(&seeds) =~= seq![tag.spec_bytes(), a@]);
    let program = program_id();
    find_program_address(&seeds, &program)
}

fn derive2(tag: &str, a: &Address, b: Vec<u8>) -> (r: Option<Derived>)
    ensures
        is_derivation(r, address_of2(tag, *a, b@)),
{
    let mut seeds: Vec<Vec<u8>> = Vec::new();
    seeds.push(slice_to_vec(tag.as_bytes()));
    seeds.push(slice_to_vec(a.bytes.as_slice()));
    seeds.push(b);
    assert(seeds_view(&seeds) =~= seq![tag.spec_bytes(), a@, b@]);
    let program = program_id();
    find_program_address(&seeds, &program)
}

/// Whether the derivation `d` found an address and `key` is that address.
pub fn matches_key(d: &Option<Derived>, key: &Address) -> (ok: bool)
    ensures
        ok == (d matches Some(x) && x.address@ == key@),
{
    match d {
        Some(x) => x.address.same(key),
        None => false,
    }
}

/// Whether the derivation `d` found an address with bump seed `bump` and
/// `key` is that address.
pub fn matches_key_and_bump(d: &Option<Derived>, key: &Address, bump: u8) -> (ok: bool)
    ensures
        ok == (d matches Some(x) && x.address@ == key@ && x.bump == bump),
{
    match d {
        Some(x) => x.bump == bump && x.address.same(key),
        None => false,
    }
}

/// Whether the derivation result `r` is the address `key`.
pub open spec fn locates(r: Option<(Seq<u8>, u8)>, key: Address) -> bool {
    r matches Some(p) && p.0 == key@
}

/// Whether the derivation result `r` is the address `key` with bump seed `bump`.
pub open spec fn locates_with_bump(r: Option<(Seq<u8>, u8)>, key: Address, bump: u8) -> bool {
    r == Some((key@, bump))
}

/// Where the profile of `authority` is filed.
pub open spec fn profile_location(authority: Address) -> Option<(Seq<u8>, u8)> {
    address_of1("user_profile", authority)
}

/// Where page `page_index` of the comment log of `post` is filed.
pub open spec fn page_location(post: Address, page_index: u64) -> Option<(Seq<u8>, u8)> {
    address_of2("comment_page", post, spec_u64_to_le_bytes(page_index))
}

/// Where the record of `user` liking `post` is filed.
pub open spec fn like_location(user: Address, post: Address) -> Option<(Seq<u8>, u8)> {
    address_of2("user_like", user, post@)
}

/// Where the comment likes of `user` on `post` are filed.
pub open spec fn tracker_location(user: Address, post: Address) -> Option<(Seq<u8>, u8)> {
    address_of2("user_comment_likes", user, post@)
}

/// Where the record of `follower` following `target` is filed.
pub open spec fn follow_location(follower: Address, target: Address) -> Option<(Seq<u8>, u8)> {
    address_of2("user_follow", follower, target@)
}

/// The address of the profile of `authority`.
pub fn user_profile_address(authority: &Address) -> (r: Option<Derived>)
    ensures
        is_derivation(r, profile_location(*authority)),
{
    derive1("user_profile", authority)
}

/// The address of page `page_index` of the comment log of `post`.
pub fn comment_page_address(post: &Address, page_index: u64) -> (r: Option<Derived>)
    ensures
        is_derivation(r, page_location(*post, page_index)),
{
    derive2("comment_page", post, u64_to_le_bytes(page_index))
}

/// The address of the record of `user` liking `post`.
pub fn user_like_address(user: &Address, post: &Address) -> (r: Option<Derived>)
    ensures
        is_derivation(r, like_location(*user, *post)),
{
    derive2("user_like", user, slice_to_vec(post.bytes.as_slice()))
}

/// The address of the comment likes of `user` on `post`.
pub fn user_comment_likes_address(user: &Address, post: &Address) -> (r: Option<Derived>)
    ensures
        is_derivation(r, tracker_location(*user, *post)),
{
    derive2("user_comment_likes", user, slice_to_vec(post.bytes.as_slice()))
}

/// The address of the record of `follower` following `target`.
pub fn user_follow_address(follower: &Address, target: &Address) -> (r: Option<Derived>)
    ensures
        is_derivation(r, follow_location(*follower, *target)),
{
    derive2("user_follow", follower, slice_to_vec(target.bytes.as_slice()))
}

} // verus!

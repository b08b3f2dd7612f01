use vstd::prelude::*;
use vstd::utf8::encode_utf8;
use anchor_lang::prelude::Pubkey;
use crate::key::Key;

verus! {

/// Longest seed the address scheme accepts, and so the longest domain name
/// in bytes.
pub const MAX_DOMAIN_LEN: usize = 32;

/// The program-derived address that `Pubkey::try_find_program_address`
/// computes for these seeds under this program id, or `None` where it finds
/// no viable bump seed.
pub uninterp spec fn program_address_of(seeds: Seq<Seq<u8>>, program: Seq<u8>) -> Option<Seq<u8>>;

/// The namespace tag that leads the seeds of every record address.
pub open spec fn marker_tag() -> Seq<u8> {
    seq![109u8, 97u8, 114u8, 107u8, 101u8, 114u8]
}

/// The bytes of a domain name, as they enter the address derivation.
pub open spec fn domain_bytes(domain: Seq<char>) -> Seq<u8> {
    encode_utf8(domain)
}

/// A domain name short enough to be a seed of the address scheme.
pub open spec fn domain_fits(domain: Seq<char>) -> bool {
    domain_bytes(domain).len() <= MAX_DOMAIN_LEN
}

/// The address at which the record of `domain` lives under `program`.
pub open spec fn marker_address_of(program: Seq<u8>, domain: Seq<char>) -> Option<Seq<u8>> {
    if domain_fits(domain) {
        program_address_of(seq![marker_tag(), domain_bytes(domain)], program)
    } else {
        None
    }
}

/// Relies on `Pubkey::try_find_program_address`: a deterministic function of
/// the seeds and the program id, which returns `None` rather than panicking.
#[verifier::external_body]
fn find_program_address(seeds: &Vec<Vec<u8>>, program_id: &Key) -> (r: Option<Key>)
    requires
        seeds@.len() < 16,
        forall|i: int| 0 <= i < seeds@.len() ==> #[trigger] seeds@[i]@.len() <= 32,
    ensures
        r matches Some(k) ==> program_address_of(seeds@.map_values(|s: Vec<u8>| s@), program_id@) == Some(k@),
        r is None ==> program_address_of(seeds@.map_values(|s: Vec<u8>| s@), program_id@) is None,
{
    let slices: Vec<&[u8]> = seeds.iter().map(|s| s.as_slice()).collect();
    let program = Pubkey::new_from_array(program_id.bytes);
    Pubkey::try_find_program_address(&slices, &program).map(|(a, _)| Key::new(a.to_bytes()))
}

/// The namespace tag as bytes.
fn marker_tag_bytes() -> (r: Vec<u8>)
    ensures
        r@ == marker_tag(),
{
    let r: Vec<u8> = vec![109u8, 97u8, 114u8, 107u8, 101u8, 114u8];
    assert(r@ =~= marker_tag());
    r
}

/// Derives the address of the record of `domain` under `program_id`: `None`
/// where the name is longer than a seed may be or where no address exists.
pub fn marker_address(program_id: &Key, domain: &str) -> (r: Option<Key>)
    ensures
        r matches Some(k) ==> marker_address_of(program_id@, domain@) == Some(k@),
        r is None ==> marker_address_of(program_id@, domain@) is None,
{
    let bytes: &[u8] = domain.as_bytes();
    if bytes.len() > MAX_DOMAIN_LEN {
        return None;
    }
    let seeds: Vec<Vec<u8>> = vec![marker_tag_bytes(), vstd::slice::slice_to_vec(bytes)];
    let r = find_program_address(&seeds, program_id);
    proof {
        assert(seeds@.map_values(|s: Vec<u8>| s@) =~= seq![marker_tag(), domain_bytes(domain@)]);
    }
    r
}

} // verus!

//! Dispatch tags: the eight leading bytes of an instruction's data that name
//! the instruction, and the other fixed-width integers read from that data.
use vstd::prelude::*;
use vstd::string::StringSliceAdditionalSpecFns;

verus! {

/// SHA-256 digest of the concatenation of `parts`.
pub uninterp spec fn sha256_of(parts: Seq<Seq<u8>>) -> Seq<u8>;

/// The integer that eight bytes hold, most significant first.
pub open spec fn be_u64(s: Seq<u8>) -> int {
    s[0] as int * 0x100000000000000 + s[1] as int * 0x1000000000000 + s[2] as int * 0x10000000000
        + s[3] as int * 0x100000000 + s[4] as int * 0x1000000 + s[5] as int * 0x10000
        + s[6] as int * 0x100 + s[7] as int
}

/// The integer that eight bytes hold, least significant first.
pub open spec fn le_u64(s: Seq<u8>) -> int {
    s[7] as int * 0x100000000000000 + s[6] as int * 0x1000000000000 + s[5] as int * 0x10000000000
        + s[4] as int * 0x100000000 + s[3] as int * 0x1000000 + s[2] as int * 0x10000
        + s[1] as int * 0x100 + s[0] as int
}

/// The tag of the instruction whose namespace is made of `parts`.
pub open spec fn discriminator_of(parts: Seq<Seq<u8>>) -> int {
    be_u64(sha256_of(parts))
}

/// Relies on solana_program::hash::hashv: the SHA-256 digest of the slices
/// taken in order.
#[verifier::external_body]
fn hashv(parts: &[&[u8]]) -> (r: [u8; 32])
    ensures
        r@ == sha256_of(parts@.map_values(|p: &[u8]| p@)),
{
    anchor_lang::solana_program::hash::hashv(parts).to_bytes()
}

/// The eight bytes of `data` from `start` on, read most significant first.
pub fn read_u64_be(data: &[u8], start: usize) -> (r: u64)
    requires
        start + 8 <= data@.len(),
    ensures
        r as int == be_u64(data@.subrange(start as int, start + 8)),
{
    let len = data.len();
    assert(start + 7 < len);
    (data[start] as u64) * 0x100000000000000 + (data[start + 1] as u64) * 0x1000000000000
        + (data[start + 2] as u64) * 0x10000000000 + (data[start + 3] as u64) * 0x100000000
        + (data[start + 4] as u64) * 0x1000000 + (data[start + 5] as u64) * 0x10000
        + (data[start + 6] as u64) * 0x100 + (data[start + 7] as u64)
}

/// The eight bytes of `data` from `start` on, read least significant first.
pub fn read_u64_le(data: &[u8], start: usize) -> (r: u64)
    requires
        start + 8 <= data@.len(),
    ensures
        r as int == le_u64(data@.subrange(start as int, start + 8)),
{
    let len = data.len();
    assert(start + 7 < len);
    (data[start + 7] as u64) * 0x100000000000000 + (data[start + 6] as u64) * 0x1000000000000
        + (data[start + 5] as u64) * 0x10000000000 + (data[start + 4] as u64) * 0x100000000
        + (data[start + 3] as u64) * 0x1000000 + (data[start + 2] as u64) * 0x10000
        + (data[start + 1] as u64) * 0x100 + (data[start] as u64)
}

/// The tag that a digest gives: its first eight bytes, most significant
/// first.
pub fn discriminator_from_digest(digest: &[u8; 32]) -> (r: u64)
    ensures
        r as int == be_u64(digest@),
{
    let d: &[u8] = digest.as_slice();
    let r = read_u64_be(d, 0);
    assert(d@.subrange(0, 8) =~= digest@.subrange(0, 8));
    r
}

/// The instruction identifier for a namespace: the first eight bytes of the
/// SHA-256 digest of its parts, most significant first.
pub fn get_instruction_discriminator(namespace: &[&[u8]]) -> (r: u64)
    ensures
        r as int == discriminator_of(namespace@.map_values(|p: &[u8]| p@)),
{
    let digest = hashv(namespace);
    discriminator_from_digest(&digest)
}

/// The tags of the two instructions that the flash-loan protocol matches.
#[derive(Clone, Copy, Debug)]
pub struct DispatchTags {
    pub borrow: u64,
    pub repay: u64,
}

/// A namespace of one part: the bytes of `name`.
pub open spec fn namespace_of(name: &str) -> Seq<Seq<u8>> {
    seq![name.spec_bytes()]
}

impl DispatchTags {
    /// Computes both tags once.
    pub fn new() -> (r: DispatchTags)
        ensures
            r.borrow as int == discriminator_of(namespace_of("global:borrow")),
            r.repay as int == discriminator_of(namespace_of("global:repay")),
    {
        let borrow_name: &[u8] = "global:borrow".as_bytes();
        let repay_name: &[u8] = "global:repay".as_bytes();
        let borrow_parts: [&[u8]; 1] = [borrow_name];
        let repay_parts: [&[u8]; 1] = [repay_name];
        let borrow = get_instruction_discriminator(borrow_parts.as_slice());
        let repay = get_instruction_discriminator(repay_parts.as_slice());
        proof {
            assert(borrow_parts@.map_values(|p: &[u8]| p@) =~= namespace_of("global:borrow"));
            assert(repay_parts@.map_values(|p: &[u8]| p@) =~= namespace_of("global:repay"));
        }
        DispatchTags { borrow, repay }
    }
}

} // verus!

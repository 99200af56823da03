use vstd::prelude::*;
use vstd::string::StringSliceAdditionalSpecFns;

use crate::algorithm::Algorithm;
use crate::session::{lemma_finish_releases, to_bytes, Session};

verus! {

/// Digest sizes, in bytes.
pub const SHA224_LEN: usize = 28;

pub const SHA256_LEN: usize = 32;

pub const SHA384_LEN: usize = 48;

pub const SHA512_LEN: usize = 64;

/// A fresh session that hashes `data` with the kernel's hash transform
/// `name` and reads a digest of `n` bytes: no key, and no operation kept.
pub open spec fn hashes(s: Session, name: Seq<u8>, data: Seq<u8>, n: nat) -> bool {
    &&& s.is_fresh()
    &&& s.algorithm_spec().encodes("hash".spec_bytes(), name)
    &&& s.key_spec() is None
    &&& s.input_spec() == data
    &&& s.out_len() == n
    &&& !s.keeps()
}

fn hash(data: &[u8], name: &str, n: usize) -> (s: Session)
    ensures
        hashes(s, name.spec_bytes(), data@, n as nat),
{
    let algorithm = Algorithm::new("hash".as_bytes(), name.as_bytes());
    Session::new(algorithm, None, to_bytes(data), n, false)
}

/// The session that computes the SHA-224 digest of `data`.
pub fn sha224(data: &[u8]) -> (s: Session)
    ensures
        hashes(s, "sha224".spec_bytes(), data@, SHA224_LEN as nat),
{
    hash(data, "sha224", SHA224_LEN)
}

/// The session that computes the SHA-256 digest of `data`.
pub fn sha256(data: &[u8]) -> (s: Session)
    ensures
        hashes(s, "sha256".spec_bytes(), data@, SHA256_LEN as nat),
{
    hash(data, "sha256", SHA256_LEN)
}

/// The session that computes the SHA-384 digest of `data`.
pub fn sha384(data: &[u8]) -> (s: Session)
    ensures
        hashes(s, "sha384".spec_bytes(), data@, SHA384_LEN as nat),
{
    hash(data, "sha384", SHA384_LEN)
}

/// The session that computes the SHA-512 digest of `data`.
pub fn sha512(data: &[u8]) -> (s: Session)
    ensures
        hashes(s, "sha512".spec_bytes(), data@, SHA512_LEN as nat),
{
    hash(data, "sha512", SHA512_LEN)
}

/// Hashing the same bytes twice makes the same request of the kernel: the
/// same transform, the same input, the same digest size, the same first call.
pub proof fn lemma_same_request(s1: Session, s2: Session, name: Seq<u8>, data: Seq<u8>, n: nat)
    requires
        hashes(s1, name, data, n),
        hashes(s2, name, data, n),
    ensures
        s1.algorithm_spec().salg_type@ == s2.algorithm_spec().salg_type@,
        s1.algorithm_spec().salg_name@ == s2.algorithm_spec().salg_name@,
        s1.input_spec() == s2.input_spec(),
        s1.out_len() == s2.out_len(),
        s1.next() == s2.next(),
{
}

/// A hashing session, however it ends (an open, bind, accept, send or
/// receive failure, or a digest), has released its context and operation:
/// it ends holding no handle.
pub proof fn lemma_hash_releases(s: Session)
    requires
        s.wf(),
        s.finished(),
        !s.keeps(),
    ensures
        s.live() == Set::<i32>::empty(),
{
    lemma_finish_releases(s);
}

} // verus!

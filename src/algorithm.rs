use vstd::prelude::*;

verus! {

/// Capacity of the transform-type field of the kernel's address structure.
pub const TYPE_LEN: usize = 14;

/// Capacity of the transform-name field of the kernel's address structure.
pub const NAME_LEN: usize = 64;

/// `text` laid into a field of `n` bytes: copied up to `n` bytes, the rest zero.
pub open spec fn padded(text: Seq<u8>, n: nat) -> Seq<u8> {
    Seq::new(n, |i: int| if i < text.len() { text[i] } else { 0u8 })
}

/// Lays `text` into a fixed field of `N` bytes. A longer text is cut at `N`
/// bytes without notice, as the kernel's structure has no room for more.
pub fn pad_salg<const N: usize>(text: &[u8]) -> (r: [u8; N])
    ensures
        r@ == padded(text@, N as nat),
{
    let mut array: [u8; N] = [0u8; N];
    let n: usize = if text.len() < N { text.len() } else { N };
    let mut i: usize = 0;
    while i < n
        invariant
            n <= N,
            n <= text@.len(),
            n == text@.len() || n == N,
            i <= n,
            array@.len() == N,
            forall|j: int| 0 <= j < i ==> array@[j] == text@[j],
            forall|j: int| i <= j < N ==> array@[j] == 0u8,
        decreases n - i,
    {
        array[i] = text[i];
        i += 1;
    }
    assert(array@ =~= padded(text@, N as nat));
    array
}

/// Which kernel transform a context is bound to: a family ("hash", "rng")
/// and a name ("sha256"), each held as the fixed, zero-filled field that the
/// kernel's address structure reserves for it.
pub struct Algorithm {
    pub salg_type: [u8; TYPE_LEN],
    pub salg_name: [u8; NAME_LEN],
}

impl Algorithm {
    /// Whether this descriptor encodes the family `t` and the name `n`.
    pub open spec fn encodes(&self, t: Seq<u8>, n: Seq<u8>) -> bool {
        &&& self.salg_type@ == padded(t, TYPE_LEN as nat)
        &&& self.salg_name@ == padded(n, NAME_LEN as nat)
    }

    /// Encodes a family and a name. Never fails; overlong text is cut.
    pub fn new(salg_type: &[u8], salg_name: &[u8]) -> (r: Algorithm)
        ensures
            r.encodes(salg_type@, salg_name@),
    {
        Algorithm { salg_type: pad_salg(salg_type), salg_name: pad_salg(salg_name) }
    }
}

} // verus!

//! Account addresses: 32 bytes, ordered as byte strings, printed in base58.

use vstd::prelude::*;

verus! {

/// An account address, held as its 32 bytes.
#[derive(Clone, Copy, Debug)]
pub struct Pubkey {
    pub bytes: [u8; 32],
}

/// `a` comes after `b` in byte-string order, comparing from position `i` on;
/// the two are taken to have the same length.
pub open spec fn bytes_greater_from(a: Seq<u8>, b: Seq<u8>, i: int) -> bool
    decreases a.len() - i,
{
    if i < 0 || i >= a.len() || i >= b.len() {
        false
    } else if a[i] != b[i] {
        a[i] > b[i]
    } else {
        bytes_greater_from(a, b, i + 1)
    }
}

/// `a` comes after `b` in byte-string order (the order of addresses).
pub open spec fn bytes_greater(a: Seq<u8>, b: Seq<u8>) -> bool {
    bytes_greater_from(a, b, 0)
}

/// The base58 text of an address with the given bytes.
pub uninterp spec fn base58_text(bytes: Seq<u8>) -> Seq<char>;

/// Of two byte strings of one length, at most one comes after the other, and
/// where neither does, they agree from position `i` on.
proof fn lemma_bytes_order_from(a: Seq<u8>, b: Seq<u8>, i: int)
    requires
        a.len() == b.len(),
        0 <= i <= a.len(),
    ensures
        !(bytes_greater_from(a, b, i) && bytes_greater_from(b, a, i)),
        !bytes_greater_from(a, b, i) && !bytes_greater_from(b, a, i) ==> a.skip(i) =~= b.skip(i),
    decreases a.len() - i,
{
    if i < a.len() {
        lemma_bytes_order_from(a, b, i + 1);
        if a[i] == b[i] && a.skip(i + 1) =~= b.skip(i + 1) {
            assert forall|k: int| 0 <= k < a.len() - i implies a.skip(i)[k] == b.skip(i)[k] by {
                if k > 0 {
                    assert(a.skip(i)[k] == a.skip(i + 1)[k - 1]);
                    assert(b.skip(i)[k] == b.skip(i + 1)[k - 1]);
                }
            }
        }
    }
}

/// The order of addresses is strict and total: of two addresses of one
/// length, exactly one comes after the other unless they are equal.
pub proof fn lemma_bytes_order_total(a: Seq<u8>, b: Seq<u8>)
    requires
        a.len() == b.len(),
    ensures
        !(bytes_greater(a, b) && bytes_greater(b, a)),
        !bytes_greater(a, b) && !bytes_greater(b, a) ==> a == b,
{
    lemma_bytes_order_from(a, b, 0);
    assert(a.skip(0) =~= a);
    assert(b.skip(0) =~= b);
}

/// Over a common prefix, the order goes by the rest.
proof fn lemma_bytes_greater_skips_prefix(a: Seq<u8>, b: Seq<u8>, k: int, i: int)
    requires
        a.len() == b.len(),
        0 <= k <= i < a.len(),
        forall|j: int| 0 <= j < i ==> a[j] == b[j],
    ensures
        bytes_greater_from(a, b, k) == bytes_greater_from(a, b, i),
    decreases i - k,
{
    if k < i {
        lemma_bytes_greater_skips_prefix(a, b, k + 1, i);
    }
}

/// Addresses are ordered as byte strings, each byte read as a number from
/// 0 to 255: the first byte where two addresses differ decides, and an
/// address does not come after itself.
pub proof fn lemma_bytes_greater_is_lexicographic(a: Seq<u8>, b: Seq<u8>, i: int)
    requires
        a.len() == b.len(),
        0 <= i < a.len(),
        forall|j: int| 0 <= j < i ==> a[j] == b[j],
    ensures
        a[i] as int > b[i] as int ==> bytes_greater(a, b),
        (a[i] as int) < b[i] as int ==> !bytes_greater(a, b),
        !bytes_greater(a, a),
{
    lemma_bytes_greater_skips_prefix(a, b, 0, i);
    lemma_bytes_order_total(a, a);
}

impl Pubkey {
    /// The address with the given bytes.
    pub fn new_from_array(bytes: [u8; 32]) -> (key: Pubkey)
        ensures
            key.bytes@ == bytes@,
    {
        Pubkey { bytes }
    }

    /// The bytes of this address.
    pub fn to_bytes(&self) -> (bytes: [u8; 32])
        ensures
            bytes@ == self.bytes@,
    {
        self.bytes
    }

    /// Whether this address comes after `other` (the derived order of
    /// addresses: byte by byte, from the first byte).
    pub fn greater_than(&self, other: &Pubkey) -> (greater: bool)
        ensures
            greater == bytes_greater(self.bytes@, other.bytes@),
    {
        let mut i: usize = 0;
        while i < 32
            invariant
                i <= 32,
                self.bytes@.len() == 32,
                other.bytes@.len() == 32,
                bytes_greater(self.bytes@, other.bytes@) == bytes_greater_from(
                    self.bytes@,
                    other.bytes@,
                    i as int,
                ),
            decreases 32 - i,
        {
            if self.bytes[i] != other.bytes[i] {
                return self.bytes[i] > other.bytes[i];
            }
            i = i + 1;
        }
        false
    }

    /// The base58 text of this address.
    pub fn to_base58(&self) -> (text: String)
        ensures
            text@ == base58_text(self.bytes@),
    {
        base58_encode(&self.bytes)
    }
}

/// Calls `Display` of `anchor_lang::prelude::Pubkey` (the base58 encoding of
/// the 32 bytes, by the `bs58` crate). Claimed: the text depends on the bytes
/// alone; nothing more is stated of it.
#[verifier::external_body]
fn base58_encode(bytes: &[u8; 32]) -> (text: String)
    ensures
        text@ == base58_text(bytes@),
{
    anchor_lang::prelude::Pubkey::new_from_array(*bytes).to_string()
}

} // verus!

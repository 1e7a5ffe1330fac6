//! Secret-key material and its validity check.
//!
//! The codec that performs the key agreement rejects invalid key material
//! before any bytes are exchanged. A key over the secp256k1 group is valid
//! exactly when its big-endian value lies in `[1, order)`; that check is plain
//! byte arithmetic and is carried out (and proved) here.

use vstd::prelude::*;

verus! {

/// Local node's private key material, owned by the caller and borrowed for
/// the duration of a handshake.
#[derive(Clone, Copy, Debug, PartialEq, Eq)]
pub struct SecretKey {
    bytes: [u8; 32],
}

/// Big-endian bytes of the order of the secp256k1 group: a secret key is
/// valid exactly when its value is at least 1 and below this order.
pub open spec fn group_order() -> Seq<u8> {
    seq![
        0xffu8, 0xff, 0xff, 0xff, 0xff, 0xff, 0xff, 0xff,
        0xff, 0xff, 0xff, 0xff, 0xff, 0xff, 0xff, 0xfe,
        0xba, 0xae, 0xdc, 0xe6, 0xaf, 0x48, 0xa0, 0x3b,
        0xbf, 0xd2, 0x5e, 0x8c, 0xd0, 0x36, 0x41, 0x41,
    ]
}

/// Every byte of `s` is zero.
pub open spec fn all_zero(s: Seq<u8>) -> bool {
    forall|i: int| 0 <= i < s.len() ==> s[i] == 0
}

/// `a` is lexicographically below `b`; for big-endian byte strings of equal
/// length this is numeric order.
pub open spec fn lex_below(a: Seq<u8>, b: Seq<u8>) -> bool
    decreases a.len(),
{
    if a.len() == 0 || b.len() == 0 {
        false
    } else if a[0] < b[0] {
        true
    } else if a[0] == b[0] {
        lex_below(a.skip(1), b.skip(1))
    } else {
        false
    }
}

/// A 32-byte big-endian value is a valid secret key when it is neither zero
/// nor at or above the group order.
pub open spec fn key_valid(s: Seq<u8>) -> bool {
    s.len() == 32 && !all_zero(s) && lex_below(s, group_order())
}

impl View for SecretKey {
    type V = Seq<u8>;

    closed spec fn view(&self) -> Seq<u8> {
        self.bytes@
    }
}

impl SecretKey {
    /// Whether this key's value lies in `[1, order)`.
    pub open spec fn valid(&self) -> bool {
        key_valid(self@)
    }

    /// Wraps raw key bytes; validity is checked when the key is used for a
    /// handshake.
    pub fn new(bytes: [u8; 32]) -> (r: SecretKey)
        ensures
            r@ == bytes@,
    {
        SecretKey { bytes }
    }

    /// Runs the validity check: the key's big-endian value is in `[1, order)`.
    pub fn is_valid(&self) -> (r: bool)
        ensures
            r == self.valid(),
    {
        let order: [u8; 32] = [
            0xffu8, 0xff, 0xff, 0xff, 0xff, 0xff, 0xff, 0xff,
            0xff, 0xff, 0xff, 0xff, 0xff, 0xff, 0xff, 0xfe,
            0xba, 0xae, 0xdc, 0xe6, 0xaf, 0x48, 0xa0, 0x3b,
            0xbf, 0xd2, 0x5e, 0x8c, 0xd0, 0x36, 0x41, 0x41,
        ];
        proof {
            assert(order@ =~= group_order());
        }
        let nonzero = !bytes_all_zero(&self.bytes);
        let below = bytes_below(&self.bytes, &order);
        nonzero && below
    }
}

/// Checks whether every byte of `a` is zero.
fn bytes_all_zero(a: &[u8; 32]) -> (r: bool)
    ensures
        r == all_zero(a@),
{
    let mut i: usize = 0;
    while i < 32
        invariant
            0 <= i <= 32,
            forall|j: int| 0 <= j < i ==> a@[j] == 0,
        decreases 32 - i,
    {
        if a[i] != 0 {
            assert(a@[i as int] != 0);
            return false;
        }
        i += 1;
    }
    true
}

/// Compares two 32-byte strings lexicographically.
fn bytes_below(a: &[u8; 32], b: &[u8; 32]) -> (r: bool)
    ensures
        r == lex_below(a@, b@),
{
    let mut i: usize = 0;
    proof {
        assert(a@.skip(0) =~= a@);
        assert(b@.skip(0) =~= b@);
    }
    while i < 32
        invariant
            0 <= i <= 32,
            lex_below(a@, b@) == lex_below(a@.skip(i as int), b@.skip(i as int)),
        decreases 32 - i,
    {
        let x = a[i];
        let y = b[i];
        proof {
            assert(a@.skip(i as int)[0] == a@[i as int]);
            assert(b@.skip(i as int)[0] == b@[i as int]);
        }
        if x < y {
            return true;
        }
        if x > y {
            return false;
        }
        proof {
            assert(a@.skip(i as int).skip(1) =~= a@.skip(i as int + 1));
            assert(b@.skip(i as int).skip(1) =~= b@.skip(i as int + 1));
        }
        i += 1;
    }
    proof {
        assert(a@.skip(32).len() == 0);
    }
    false
}

} // verus!

//! Thread identifiers: sixteen lowercase hexadecimal characters made from
//! eight random bytes.

use vstd::prelude::*;
use crate::decimal::digit_char;

verus! {

/// The lowercase hexadecimal digit for `d` (0 to 15).
pub open spec fn hex_digit(d: int) -> char {
    if d < 10 {
        digit_char(d)
    } else if d == 10 {
        'a'
    } else if d == 11 {
        'b'
    } else if d == 12 {
        'c'
    } else if d == 13 {
        'd'
    } else if d == 14 {
        'e'
    } else {
        'f'
    }
}

/// Each byte as two lowercase hexadecimal digits, high nibble first.
pub open spec fn hex_lower(b: Seq<u8>) -> Seq<char>
    decreases b.len(),
{
    if b.len() == 0 {
        Seq::<char>::empty()
    } else {
        hex_lower(b.drop_last()) + seq![
            hex_digit((b.last() / 16) as int),
            hex_digit((b.last() % 16) as int),
        ]
    }
}

/// Whether `c` is a lowercase hexadecimal digit.
pub open spec fn is_lower_hex(c: char) -> bool {
    ('0' <= c <= '9') || ('a' <= c <= 'f')
}

/// `hex::encode(data)` of the `hex` crate. Claimed: each byte becomes its two
/// lowercase hexadecimal digits, high nibble first (the crate's table is
/// `0123456789abcdef`).
#[verifier::external_body]
fn hex_encode(data: &[u8]) -> (r: String)
    ensures
        r@ == hex_lower(data@),
{
    hex::encode(data)
}

/// `rand::random::<[u8; 8]>()` of the `rand` crate: eight bytes from the
/// thread's generator. Nothing is claimed of their values.
#[verifier::external_body]
fn random_bytes() -> (r: Vec<u8>)
    ensures
        r@.len() == 8,
{
    rand::random::<[u8; 8]>().to_vec()
}

proof fn lemma_hex_lower_shape(b: Seq<u8>)
    ensures
        hex_lower(b).len() == 2 * b.len(),
        forall|i: int| 0 <= i < hex_lower(b).len() ==> is_lower_hex(#[trigger] hex_lower(b)[i]),
    decreases b.len(),
{
    if b.len() > 0 {
        lemma_hex_lower_shape(b.drop_last());
        let h = hex_lower(b);
        let p = hex_lower(b.drop_last());
        assert forall|i: int| 0 <= i < h.len() implies is_lower_hex(#[trigger] h[i]) by {
            if i < p.len() {
                assert(h[i] == p[i]);
            }
        }
    }
}

/// A fresh thread id: the hexadecimal form of eight random bytes.
pub fn new_thread_id() -> (r: String)
    ensures
        r@.len() == 16,
        forall|i: int| 0 <= i < r@.len() ==> is_lower_hex(#[trigger] r@[i]),
        exists|b: Seq<u8>| b.len() == 8 && r@ == hex_lower(b),
{
    let bytes = random_bytes();
    let r = hex_encode(bytes.as_slice());
    proof {
        lemma_hex_lower_shape(bytes@);
    }
    r
}

/// The given thread id, or a fresh one when none is given.
pub fn thread_id_or_new(given: Option<String>) -> (r: String)
    ensures
        match given {
            Some(t) => r@ == t@,
            None => r@.len() == 16 && forall|i: int|
                0 <= i < r@.len() ==> is_lower_hex(#[trigger] r@[i]),
        },
{
    match given {
        Some(t) => t,
        None => new_thread_id(),
    }
}

/// The given thread id when it is not empty, or a fresh one.
pub fn nonempty_thread_id_or_new(given: Option<&str>) -> (r: String)
    ensures
        match given {
            Some(t) => t@.len() > 0 ==> r@ == t@,
            None => true,
        },
        (given is None || given->0@.len() == 0) ==> (r@.len() == 16 && forall|i: int|
            0 <= i < r@.len() ==> is_lower_hex(#[trigger] r@[i])),
{
    match given {
        Some(t) => if !t.is_empty() {
            crate::text::to_owned(t)
        } else {
            new_thread_id()
        },
        None => new_thread_id(),
    }
}

} // verus!

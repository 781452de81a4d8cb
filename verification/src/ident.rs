//! The client identity: an opaque 128-bit identifier, its lowercase
//! hexadecimal text and its canonical hyphenated form. The hyphenated text
//! is what links embed and what the Trojan password is derived from.

use vstd::prelude::*;
use vstd::slice::slice_subrange;
use crate::addr::{hex_digit, hex_digit_exec};

verus! {

/// The two lowercase hexadecimal digits of one byte.
pub open spec fn hex_pair(b: u8) -> Seq<u8> {
    seq![hex_digit((b / 16) as u8), hex_digit((b % 16) as u8)]
}

/// The lowercase hexadecimal text of a byte string.
pub open spec fn hex_lower_seq(s: Seq<u8>) -> Seq<u8>
    decreases s.len(),
{
    if s.len() == 0 {
        Seq::empty()
    } else {
        hex_lower_seq(s.drop_last()) + hex_pair(s.last())
    }
}

/// Appends the lowercase hexadecimal text of `data`.
pub fn append_hex(v: &mut Vec<u8>, data: &[u8])
    ensures
        final(v)@ == old(v)@ + hex_lower_seq(data@),
{
    let mut i: usize = 0;
    while i < data.len()
        invariant
            i <= data@.len(),
            v@ == old(v)@ + hex_lower_seq(data@.take(i as int)),
        decreases data@.len() - i,
    {
        let byte = data[i];
        v.push(hex_digit_exec(byte / 16));
        v.push(hex_digit_exec(byte % 16));
        proof {
            assert(data@.take(i as int + 1).drop_last() =~= data@.take(i as int));
            assert(data@.take(i as int + 1).last() == data@[i as int]);
            assert(v@ =~= old(v)@ + hex_lower_seq(data@.take(i as int + 1)));
        }
        i = i + 1;
    }
    proof {
        assert(data@.take(data@.len() as int) =~= data@);
    }
}

/// The lowercase hexadecimal text of a byte string.
pub fn hex_lower(data: &[u8]) -> (r: Vec<u8>)
    ensures
        r@ == hex_lower_seq(data@),
{
    let mut r: Vec<u8> = Vec::new();
    append_hex(&mut r, data);
    r
}

/// The canonical hyphenated text of a 128-bit identifier: five lowercase
/// hexadecimal groups of 8, 4, 4, 4 and 12 digits joined by hyphens.
pub open spec fn uuid_text_seq(id: Seq<u8>) -> Seq<u8>
    recommends
        id.len() == 16,
{
    hex_lower_seq(id.subrange(0, 4)) + seq![45u8] + hex_lower_seq(id.subrange(4, 6)) + seq![45u8]
        + hex_lower_seq(id.subrange(6, 8)) + seq![45u8] + hex_lower_seq(id.subrange(8, 10))
        + seq![45u8] + hex_lower_seq(id.subrange(10, 16))
}

/// The canonical hyphenated text of an identifier.
pub fn uuid_text(id: &[u8; 16]) -> (r: Vec<u8>)
    ensures
        r@ == uuid_text_seq(id@),
{
    let s = id.as_slice();
    let mut r: Vec<u8> = Vec::new();
    append_hex(&mut r, slice_subrange(s, 0, 4));
    r.push(45);
    append_hex(&mut r, slice_subrange(s, 4, 6));
    r.push(45);
    append_hex(&mut r, slice_subrange(s, 6, 8));
    r.push(45);
    append_hex(&mut r, slice_subrange(s, 8, 10));
    r.push(45);
    append_hex(&mut r, slice_subrange(s, 10, 16));
    assert(r@ =~= uuid_text_seq(id@));
    r
}

} // verus!

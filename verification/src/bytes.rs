//! Reading fixed-width fields out of a packet payload.

use vstd::prelude::*;

verus! {

/// The text held by a NUL-padded field: every byte before the first zero.
pub open spec fn text_of(field: Seq<u8>) -> Seq<u8>
    decreases field.len(),
{
    if field.len() == 0 || field[0] == 0 {
        Seq::empty()
    } else {
        seq![field[0]] + text_of(field.skip(1))
    }
}

/// The little-endian value of the first two bytes of `s`.
pub open spec fn le_u16(s: Seq<u8>) -> u16 {
    (s[0] as int + s[1] as int * 256) as u16
}

/// The little-endian value of the first four bytes of `s`.
pub open spec fn le_u32(s: Seq<u8>) -> u32 {
    (s[0] as int + s[1] as int * 256 + s[2] as int * 65536 + s[3] as int * 16777216) as u32
}

/// The text of a field never holds a zero byte and is a prefix of the field.
pub proof fn lemma_text_of_is_prefix(field: Seq<u8>)
    ensures
        text_of(field).len() <= field.len(),
        text_of(field) == field.take(text_of(field).len() as int),
        forall|i: int| 0 <= i < text_of(field).len() ==> text_of(field)[i] != 0,
        text_of(field).len() < field.len() ==> field[text_of(field).len() as int] == 0,
    decreases field.len(),
{
    if field.len() == 0 || field[0] == 0 {
        assert(text_of(field) =~= field.take(0));
    } else {
        let rest = field.skip(1);
        lemma_text_of_is_prefix(rest);
        let n = text_of(rest).len() as int;
        assert(text_of(field) =~= field.take(n + 1)) by {
            assert(text_of(rest) == rest.take(n));
            assert forall|i: int| 0 <= i < n + 1 implies text_of(field)[i] == field.take(n + 1)[i] by {
                if i > 0 {
                    assert(text_of(field)[i] == text_of(rest)[i - 1]);
                    assert(rest.take(n)[i - 1] == rest[i - 1]);
                }
            }
        }
        assert forall|i: int| 0 <= i < text_of(field).len() implies text_of(field)[i] != 0 by {
            if i > 0 {
                assert(text_of(field)[i] == text_of(rest)[i - 1]);
            }
        }
        if text_of(field).len() < field.len() {
            assert(field[n + 1] == rest[n]);
        }
    }
}

/// Copies a byte string.
pub fn copy_bytes(src: &Vec<u8>) -> (out: Vec<u8>)
    ensures
        out@ == src@,
{
    let mut out: Vec<u8> = Vec::new();
    let mut i: usize = 0;
    while i < src.len()
        invariant
            i <= src.len(),
            out@ == src@.take(i as int),
        decreases src.len() - i,
    {
        out.push(src[i]);
        i += 1;
        assert(out@ =~= src@.take(i as int));
    }
    assert(src@.take(src.len() as int) =~= src@);
    out
}

/// Tells whether two byte strings are equal.
pub fn bytes_equal(a: &Vec<u8>, b: &Vec<u8>) -> (same: bool)
    ensures
        same == (a@ == b@),
{
    if a.len() != b.len() {
        return false;
    }
    let mut i: usize = 0;
    while i < a.len()
        invariant
            i <= a.len(),
            a.len() == b.len(),
            forall|j: int| 0 <= j < i ==> a@[j] == b@[j],
        decreases a.len() - i,
    {
        if a[i] != b[i] {
            return false;
        }
        i += 1;
    }
    assert(a@ =~= b@);
    true
}

/// Reads `len` raw bytes starting at `start`.
pub fn read_bytes(data: &Vec<u8>, start: usize, len: usize) -> (out: Vec<u8>)
    requires
        start + len <= data.len(),
    ensures
        out@ == data@.subrange(start as int, start + len),
{
    let mut out: Vec<u8> = Vec::new();
    let mut i: usize = 0;
    while i < len
        invariant
            i <= len,
            start + len <= data.len(),
            out@ == data@.subrange(start as int, start + i),
        decreases len - i,
    {
        out.push(data[start + i]);
        i += 1;
        assert(out@ =~= data@.subrange(start as int, start + i));
    }
    out
}

/// Reads the text of the NUL-padded field of `len` bytes starting at `start`.
pub fn read_text(data: &Vec<u8>, start: usize, len: usize) -> (out: Vec<u8>)
    requires
        start + len <= data.len(),
    ensures
        out@ == text_of(data@.subrange(start as int, start + len)),
{
    let ghost field = data@.subrange(start as int, start + len);
    let mut out: Vec<u8> = Vec::new();
    let mut i: usize = 0;
    assert(field.skip(0) =~= field);
    assert(out@ + text_of(field) =~= text_of(field));
    while i < len && data[start + i] != 0
        invariant
            i <= len,
            start + len <= data.len(),
            field == data@.subrange(start as int, start + len),
            text_of(field) == out@ + text_of(field.skip(i as int)),
        decreases len - i,
    {
        proof {
            let tail = field.skip(i as int);
            assert(tail[0] == data@[start + i]);
            assert(tail.skip(1) =~= field.skip(i + 1));
            assert(out@ + (seq![tail[0]] + text_of(tail.skip(1))) =~= out@.push(tail[0]) + text_of(
                tail.skip(1),
            ));
        }
        out.push(data[start + i]);
        i += 1;
    }
    proof {
        let tail = field.skip(i as int);
        if i < len {
            assert(tail[0] == data@[start + i]);
        }
        assert(text_of(tail) =~= Seq::<u8>::empty());
        assert(out@ + Seq::<u8>::empty() =~= out@);
    }
    out
}

/// Reads a little-endian `u16` at `start`.
pub fn read_u16_le(data: &Vec<u8>, start: usize) -> (value: u16)
    requires
        start + 2 <= data.len(),
    ensures
        value == le_u16(data@.subrange(start as int, start + 2)),
{
    let b0: u16 = data[start] as u16;
    let b1: u16 = data[start + 1] as u16;
    b0 + b1 * 256
}

/// Reads a little-endian `u32` at `start`.
pub fn read_u32_le(data: &Vec<u8>, start: usize) -> (value: u32)
    requires
        start + 4 <= data.len(),
    ensures
        value == le_u32(data@.subrange(start as int, start + 4)),
{
    let b0: u32 = data[start] as u32;
    let b1: u32 = data[start + 1] as u32;
    let b2: u32 = data[start + 2] as u32;
    let b3: u32 = data[start + 3] as u32;
    b0 + b1 * 256 + b2 * 65536 + b3 * 16777216
}

} // verus!

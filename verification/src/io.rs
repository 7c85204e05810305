//! The byte layout of persisted captures: a flat sequence of interleaved
//! in-phase/quadrature 16-bit signed integers, little-endian, with no header
//! and no metadata. The unverified layer writes the bytes to disk.

use vstd::prelude::*;
use vstd::bytes::{spec_u16_to_le_bytes, u16_to_le_bytes};

verus! {

/// The 16-bit two's-complement pattern of a signed sample component.
pub open spec fn spec_u16_of_i16(x: i16) -> u16 {
    if x >= 0 {
        x as u16
    } else {
        (x + 0x10000) as u16
    }
}

/// The four bytes of one complex sample: in-phase first, each component
/// little-endian.
pub open spec fn spec_sample_le_bytes(s: (i16, i16)) -> Seq<u8> {
    spec_u16_to_le_bytes(spec_u16_of_i16(s.0)) + spec_u16_to_le_bytes(spec_u16_of_i16(s.1))
}

/// The byte image of a whole sample buffer, in order.
pub open spec fn spec_sc16_le_bytes(data: Seq<(i16, i16)>) -> Seq<u8>
    decreases data.len(),
{
    if data.len() == 0 {
        Seq::empty()
    } else {
        spec_sc16_le_bytes(data.drop_last()) + spec_sample_le_bytes(data.last())
    }
}

fn u16_of_i16(x: i16) -> (r: u16)
    ensures
        r == spec_u16_of_i16(x),
{
    if x >= 0 {
        x as u16
    } else {
        ((x as i32) + 0x10000) as u16
    }
}

/// Serializes a sample buffer to its persisted byte image: four bytes per
/// sample, interleaved I/Q, little-endian.
pub fn sc16_to_le_bytes(data: &Vec<(i16, i16)>) -> (r: Vec<u8>)
    ensures
        r@ == spec_sc16_le_bytes(data@),
        r@.len() == 4 * data@.len(),
{
    let mut out: Vec<u8> = Vec::new();
    let mut i: usize = 0;
    proof {
        assert(data@.take(0) =~= Seq::<(i16, i16)>::empty());
        assert(out@ =~= spec_sc16_le_bytes(data@.take(0)));
        lemma_sc16_le_bytes_len(data@.take(0));
    }
    while i < data.len()
        invariant
            i <= data@.len(),
            out@ == spec_sc16_le_bytes(data@.take(i as int)),
            out@.len() == 4 * i,
        decreases data@.len() - i,
    {
        let ghost prior = out@;
        let sample = data[i];
        let mut in_phase = u16_to_le_bytes(u16_of_i16(sample.0));
        let mut quadrature = u16_to_le_bytes(u16_of_i16(sample.1));
        out.append(&mut in_phase);
        out.append(&mut quadrature);
        proof {
            vstd::bytes::lemma_auto_spec_u16_to_from_le_bytes();
            assert(data@.take(i as int + 1).drop_last() =~= data@.take(i as int));
            assert(data@.take(i as int + 1).last() == data@[i as int]);
            assert(out@ =~= prior + spec_sample_le_bytes(data@[i as int]));
        }
        i = i + 1;
    }
    proof {
        assert(data@.take(data@.len() as int) =~= data@);
    }
    out
}

/// The signed component a 16-bit two's-complement pattern stands for.
pub open spec fn spec_i16_of_u16(w: u16) -> i16 {
    if w < 0x8000 {
        w as i16
    } else {
        (w - 0x10000) as i16
    }
}

proof fn lemma_u16_i16_round_trip(w: u16)
    ensures
        spec_u16_of_i16(spec_i16_of_u16(w)) == w,
{
}

fn i16_of_u16(w: u16) -> (r: i16)
    ensures
        r == spec_i16_of_u16(w),
{
    if w < 0x8000 {
        w as i16
    } else {
        ((w as i32) - 0x10000) as i16
    }
}

/// Parses a persisted byte image back into samples: the exact inverse of
/// [`sc16_to_le_bytes`] — re-serializing the result reproduces the input
/// bytes — with any length that is not whole samples rejected.
pub fn sc16_from_le_bytes(bytes: &Vec<u8>) -> (r: Result<Vec<(i16, i16)>, &'static str>)
    ensures
        bytes@.len() % 4 == 0 ==> (r matches Ok(v) && {
            &&& v@.len() == bytes@.len() / 4
            &&& spec_sc16_le_bytes(v@) == bytes@
        }),
        bytes@.len() % 4 != 0 ==> (r matches Err(m) && m@
            == "Byte count is not a whole number of samples"@),
{
    let n = bytes.len();
    if n % 4 != 0 {
        return Err("Byte count is not a whole number of samples");
    }
    let total = n / 4;
    let mut out: Vec<(i16, i16)> = Vec::new();
    let mut i: usize = 0;
    proof {
        assert(out@ =~= Seq::<(i16, i16)>::empty());
        assert(spec_sc16_le_bytes(out@) =~= bytes@.take(0));
    }
    while i < total
        invariant
            i <= total,
            n == bytes@.len(),
            total == n / 4,
            n % 4 == 0,
            out@.len() == i,
            spec_sc16_le_bytes(out@) == bytes@.take(4 * i as int),
        decreases total - i,
    {
        let ghost prior = out@;
        proof {
            vstd::arithmetic::div_mod::lemma_fundamental_div_mod(bytes@.len() as int, 4);
            assert(4 * (i as int) + 4 <= bytes@.len());
        }
        let base = 4 * i;
        let in_phase_bytes = vstd::slice::slice_subrange(bytes.as_slice(), base, base + 2);
        let quadrature_bytes = vstd::slice::slice_subrange(bytes.as_slice(), base + 2, base + 4);
        let w0 = vstd::bytes::u16_from_le_bytes(in_phase_bytes);
        let w1 = vstd::bytes::u16_from_le_bytes(quadrature_bytes);
        let sample = (i16_of_u16(w0), i16_of_u16(w1));
        out.push(sample);
        proof {
            vstd::bytes::lemma_auto_spec_u16_to_from_le_bytes();
            lemma_u16_i16_round_trip(w0);
            lemma_u16_i16_round_trip(w1);
            assert(out@.drop_last() =~= prior);
            assert(spec_sample_le_bytes(sample) =~= bytes@.subrange(
                4 * i as int,
                4 * i as int + 4,
            ));
            assert(bytes@.take(4 * (i as int + 1)) =~= bytes@.take(4 * i as int) + bytes@.subrange(
                4 * i as int,
                4 * i as int + 4,
            ));
        }
        i = i + 1;
    }
    proof {
        assert(bytes@.take(4 * total as int) =~= bytes@);
    }
    Ok(out)
}

proof fn lemma_sc16_le_bytes_len(data: Seq<(i16, i16)>)
    ensures
        spec_sc16_le_bytes(data).len() == 4 * data.len(),
    decreases data.len(),
{
    vstd::bytes::lemma_auto_spec_u16_to_from_le_bytes();
    if data.len() > 0 {
        lemma_sc16_le_bytes_len(data.drop_last());
    }
}

} // verus!

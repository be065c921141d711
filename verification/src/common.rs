//! Pixel sample types and the conversion of raw output bytes into samples.

use byteorder::{ByteOrder, NativeEndian, BE, LE};
use vstd::prelude::*;

use crate::sealed::Sealed;
use crate::types::{JxlDataType, JxlEndianness, JxlPixelFormat};

verus! {

/// Endianness of the pixels.
pub type Endianness = JxlEndianness;

/// The `u16` made of a low byte and a high byte.
pub open spec fn u16_of_bytes(lo: u8, hi: u8) -> u16 {
    (lo as int + 256 * (hi as int)) as u16
}

/// The `u16` samples of a byte sequence read two bytes at a time in little
/// endian order.
pub open spec fn u16s_le(data: Seq<u8>) -> Seq<u16> {
    Seq::new(data.len() / 2, |i: int| u16_of_bytes(data[2 * i], data[2 * i + 1]))
}

/// The `u16` samples of a byte sequence read two bytes at a time in big
/// endian order.
pub open spec fn u16s_be(data: Seq<u8>) -> Seq<u16> {
    Seq::new(data.len() / 2, |i: int| u16_of_bytes(data[2 * i + 1], data[2 * i]))
}

/// The bytes of `u16` samples, each written low byte first.
pub open spec fn u16s_to_le_bytes(v: Seq<u16>) -> Seq<u8> {
    Seq::new(
        2 * v.len(),
        |i: int|
            if i % 2 == 0 {
                (v[i / 2] % 256) as u8
            } else {
                (v[i / 2] / 256) as u8
            },
    )
}

/// The bytes of `u16` samples, each written high byte first.
pub open spec fn u16s_to_be_bytes(v: Seq<u16>) -> Seq<u8> {
    Seq::new(
        2 * v.len(),
        |i: int|
            if i % 2 == 0 {
                (v[i / 2] / 256) as u8
            } else {
                (v[i / 2] % 256) as u8
            },
    )
}

/// Reading back the bytes of `u16` samples in the byte order they were
/// written in gives the samples: so a `u16` conversion in little or big
/// endian order undoes the writing of the samples in that order, and a
/// conversion in native order gives the samples back from bytes written in
/// the machine's order.
pub proof fn lemma_u16_bytes_roundtrip(v: Seq<u16>)
    ensures
        u16s_le(u16s_to_le_bytes(v)) == v,
        u16s_be(u16s_to_be_bytes(v)) == v,
{
    let le = u16s_to_le_bytes(v);
    let be = u16s_to_be_bytes(v);
    assert forall|i: int| 0 <= i < v.len() implies #[trigger] u16s_le(le)[i] == v[i] && u16s_be(
        be,
    )[i] == v[i] by {
        assert((2 * i) % 2 == 0);
        assert((2 * i + 1) % 2 == 1);
        assert((2 * i) / 2 == i);
        assert((2 * i + 1) / 2 == i);
        let x = v[i];
        assert((x % 256) as int + 256 * ((x / 256) as int) == x as int);
    }
    assert(u16s_le(le) =~= v);
    assert(u16s_be(be) =~= v);
}

/// `byteorder::LittleEndian::read_u16_into`: reads each pair of bytes of
/// `src` as a little endian `u16` into `dst`. It panics unless `src` is
/// exactly twice as long as `dst`.
#[verifier::external_body]
fn read_u16_into_le(src: &[u8], dst: &mut Vec<u16>)
    requires
        src@.len() == 2 * old(dst)@.len(),
    ensures
        final(dst)@ == u16s_le(src@),
{
    LE::read_u16_into(src, dst.as_mut_slice())
}

/// `byteorder::BigEndian::read_u16_into`: reads each pair of bytes of `src`
/// as a big endian `u16` into `dst`. It panics unless `src` is exactly twice
/// as long as `dst`.
#[verifier::external_body]
fn read_u16_into_be(src: &[u8], dst: &mut Vec<u16>)
    requires
        src@.len() == 2 * old(dst)@.len(),
    ensures
        final(dst)@ == u16s_be(src@),
{
    BE::read_u16_into(src, dst.as_mut_slice())
}

/// `byteorder::NativeEndian::read_u16_into`: `NativeEndian` is the little
/// endian or the big endian reader, as the target machine is; which one is
/// not stated, only that the result is one of the two readings.
#[verifier::external_body]
fn read_u16_into_native(src: &[u8], dst: &mut Vec<u16>)
    requires
        src@.len() == 2 * old(dst)@.len(),
    ensures
        final(dst)@ == u16s_le(src@) || final(dst)@ == u16s_be(src@),
{
    NativeEndian::read_u16_into(src, dst.as_mut_slice())
}

/// Pixel data type. The supported sample types are `u8` and `u16`.
pub trait PixelType: Sealed + Sized {
    /// The data type the decoder is asked for.
    spec fn spec_pixel_type() -> JxlDataType;

    /// Number of bits per sample and exponent bits.
    spec fn spec_bits_per_sample() -> (u32, u32);

    /// Number of bytes of one sample.
    spec fn sample_size() -> nat;

    /// Whether `out` is a conversion of the raw bytes `data` in the given
    /// byte order.
    spec fn converts(data: Seq<u8>, endianness: JxlEndianness, out: Seq<Self>) -> bool;

    /// Return the data type of the samples.
    fn pixel_type() -> (r: JxlDataType)
        ensures
            r == Self::spec_pixel_type(),
    ;

    /// Return number of bits per sample and exponential bits.
    fn bits_per_sample() -> (r: (u32, u32))
        ensures
            r == Self::spec_bits_per_sample(),
    ;

    /// Convert raw output bytes to samples.
    fn convert(data: &[u8], pixel_format: &JxlPixelFormat) -> (r: Vec<Self>)
        requires
            Self::sample_size() > 0,
            data@.len() % Self::sample_size() == 0,
        ensures
            Self::converts(data@, pixel_format.endianness, r@),
    ;
}

impl PixelType for u8 {
    open spec fn spec_pixel_type() -> JxlDataType {
        JxlDataType::Uint8
    }

    open spec fn spec_bits_per_sample() -> (u32, u32) {
        (8, 0)
    }

    open spec fn sample_size() -> nat {
        1
    }

    open spec fn converts(data: Seq<u8>, endianness: JxlEndianness, out: Seq<u8>) -> bool {
        out == data
    }

    fn pixel_type() -> (r: JxlDataType) {
        JxlDataType::Uint8
    }

    fn bits_per_sample() -> (r: (u32, u32)) {
        (8, 0)
    }

    fn convert(data: &[u8], _pixel_format: &JxlPixelFormat) -> (r: Vec<u8>) {
        vstd::slice::slice_to_vec(data)
    }
}

impl PixelType for u16 {
    open spec fn spec_pixel_type() -> JxlDataType {
        JxlDataType::Uint16
    }

    open spec fn spec_bits_per_sample() -> (u32, u32) {
        (16, 0)
    }

    open spec fn sample_size() -> nat {
        2
    }

    open spec fn converts(data: Seq<u8>, endianness: JxlEndianness, out: Seq<u16>) -> bool {
        match endianness {
            JxlEndianness::Little => out == u16s_le(data),
            JxlEndianness::Big => out == u16s_be(data),
            JxlEndianness::Native => out == u16s_le(data) || out == u16s_be(data),
        }
    }

    fn pixel_type() -> (r: JxlDataType) {
        JxlDataType::Uint16
    }

    fn bits_per_sample() -> (r: (u32, u32)) {
        (16, 0)
    }

    fn convert(data: &[u8], pixel_format: &JxlPixelFormat) -> (r: Vec<u16>) {
        let mut buf: Vec<u16> = vec![0u16; data.len() / 2];
        match pixel_format.endianness {
            JxlEndianness::Native => read_u16_into_native(data, &mut buf),
            JxlEndianness::Little => read_u16_into_le(data, &mut buf),
            JxlEndianness::Big => read_u16_into_be(data, &mut buf),
        }
        buf
    }
}

} // verus!

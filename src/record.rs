use vstd::prelude::*;
use crate::config::PaintConfig;
use crate::flags::{alignment_code, cap_code, pack_flags, thickness_code, Alignment, Cap, ThicknessType};
use crate::matrix::Matrix;

verus! {

/// A point or vector of three single-precision floats, as bit patterns.
#[derive(Clone, Copy, Debug, PartialEq, Eq, Structural)]
pub struct Point3 {
    pub x: u32,
    pub y: u32,
    pub z: u32,
}

/// A coordinate was NaN or infinite; the shape is not drawn.
#[derive(Clone, Copy, Debug, PartialEq, Eq, Structural)]
pub struct InvalidGeometry;

/// The bit pattern of a finite float: its exponent field is not all ones.
pub open spec fn is_finite_bits(b: u32) -> bool {
    (b >> 23u32) & 0xff != 0xff
}

pub open spec fn point_finite(p: Point3) -> bool {
    is_finite_bits(p.x) && is_finite_bits(p.y) && is_finite_bits(p.z)
}

impl Point3 {
    /// Whether every coordinate is finite.
    pub fn is_finite(&self) -> (r: bool)
        ensures
            r == point_finite(*self),
    {
        (self.x >> 23u32) & 0xff != 0xff && (self.y >> 23u32) & 0xff != 0xff && (self.z >> 23u32)
            & 0xff != 0xff
    }
}

/// The number of 32-bit words in a quadratic Bezier record.
pub const QUAD_BEZIER_WORDS: usize = 31;

/// Byte `j` (0 = least significant) of `w`.
pub open spec fn byte_of(w: u32, j: int) -> u8 {
    ((w >> ((8 * j) as u32)) & 0xff) as u8
}

/// Words laid out back to back, each little-endian, with no padding.
pub open spec fn bytes_of_words(ws: Seq<u32>) -> Seq<u8> {
    Seq::new((4 * ws.len()) as nat, |k: int| byte_of(ws[k / 4], k % 4))
}

/// The little-endian word that starts at byte `k`.
pub open spec fn word_at(b: Seq<u8>, k: int) -> u32 {
    (b[k] as u32) | ((b[k + 1] as u32) << 8u32) | ((b[k + 2] as u32) << 16u32) | ((b[k + 3] as u32)
        << 24u32)
}

/// The sixteen words that start a record's bytes: its transform.
pub open spec fn decoded_transform(b: Seq<u8>) -> Seq<u32> {
    Seq::new(16, |i: int| word_at(b, 4 * i))
}

proof fn lemma_word_bytes(w: u32)
    ensures
        (byte_of(w, 0) as u32) | ((byte_of(w, 1) as u32) << 8u32) | ((byte_of(w, 2) as u32) << 16u32)
            | ((byte_of(w, 3) as u32) << 24u32) == w,
{
    assert((((w >> 0u32) & 0xff) as u8 as u32) | ((((w >> 8u32) & 0xff) as u8 as u32) << 8u32) | ((
    ((w >> 16u32) & 0xff) as u8 as u32) << 16u32) | ((((w >> 24u32) & 0xff) as u8 as u32) << 24u32)
        == w) by (bit_vector);
}

/// The data of one quadratic Bezier as the shader reads it.
#[derive(Clone, Copy, Debug)]
pub struct QuadBezierData {
    pub transform: Matrix,
    pub color: [u32; 4],
    pub thickness: u32,
    pub flags: u32,
    pub start: Point3,
    pub end: Point3,
    pub control: Point3,
}

impl QuadBezierData {
    /// The record's words in layout order: transform (column-major), colour, thickness,
    /// flags, start, end, control.
    pub open spec fn words(self) -> Seq<u32> {
        self.transform@ + self.color@ + seq![
            self.thickness,
            self.flags,
            self.start.x,
            self.start.y,
            self.start.z,
            self.end.x,
            self.end.y,
            self.end.z,
            self.control.x,
            self.control.y,
            self.control.z,
        ]
    }

    /// The record of a curve drawn now with `config`: its transform is the configuration's.
    pub fn new(config: &PaintConfig, start: Point3, control: Point3, end: Point3) -> (r: Self)
        ensures
            r.transform == config.transform,
            r.color == config.color,
            r.thickness == config.thickness,
            r.flags == pack_flags_spec(config.thickness_type, config.alignment, config.cap),
            r.start == start && r.control == control && r.end == end,
    {
        let flags = pack_flags(config.thickness_type, config.alignment, config.cap);
        QuadBezierData {
            transform: config.transform,
            color: config.color,
            thickness: config.thickness,
            flags: flags.0,
            start,
            end,
            control,
        }
    }

    /// The record as the 31 words of its layout.
    pub fn to_words(&self) -> (r: Vec<u32>)
        ensures
            r@ == self.words(),
    {
        let mut r: Vec<u32> = Vec::new();
        let mut i: usize = 0;
        while i < 16
            invariant
                0 <= i <= 16,
                r@ == self.transform@.take(i as int),
            decreases 16 - i,
        {
            r.push(self.transform[i]);
            i += 1;
            assert(r@ =~= self.transform@.take(i as int));
        }
        let mut j: usize = 0;
        while j < 4
            invariant
                0 <= j <= 4,
                r@ == self.transform@.take(16) + self.color@.take(j as int),
            decreases 4 - j,
        {
            r.push(self.color[j]);
            j += 1;
            assert(r@ =~= self.transform@.take(16) + self.color@.take(j as int));
        }
        r.push(self.thickness);
        r.push(self.flags);
        r.push(self.start.x);
        r.push(self.start.y);
        r.push(self.start.z);
        r.push(self.end.x);
        r.push(self.end.y);
        r.push(self.end.z);
        r.push(self.control.x);
        r.push(self.control.y);
        r.push(self.control.z);
        assert(self.transform@.take(16) =~= self.transform@);
        assert(self.color@.take(4) =~= self.color@);
        assert(r@ =~= self.words());
        r
    }

    /// The record's bytes: its words back to back, little-endian, with no padding.
    pub fn encode(&self) -> (r: Vec<u8>)
        ensures
            r@ == bytes_of_words(self.words()),
            r@.len() == 4 * QUAD_BEZIER_WORDS,
    {
        let ws = self.to_words();
        let mut r: Vec<u8> = Vec::new();
        let mut i: usize = 0;
        while i < ws.len()
            invariant
                0 <= i <= ws@.len(),
                ws@ == self.words(),
                r@.len() == 4 * i,
                forall|k: int| 0 <= k < 4 * i ==> #[trigger] r@[k] == byte_of(ws@[k / 4], k % 4),
            decreases ws@.len() - i,
        {
            let w = ws[i];
            r.push((w & 0xff) as u8);
            r.push(((w >> 8u32) & 0xff) as u8);
            r.push(((w >> 16u32) & 0xff) as u8);
            r.push(((w >> 24u32) & 0xff) as u8);
            assert(byte_of(w, 0) == (w & 0xff) as u8) by {
                assert((w >> 0u32) & 0xff == w & 0xff) by (bit_vector);
            }
            i += 1;
        }
        assert(r@ =~= bytes_of_words(self.words()));
        r
    }
}

pub open spec fn pack_flags_spec(t: ThicknessType, a: Alignment, c: Cap) -> u32 {
    thickness_code(t) | (alignment_code(a) << 2u32) | (cap_code(c) << 4u32)
}

/// The transform held in the first sixteen words of an encoded record, or `None` when the
/// bytes are too short to hold one.
pub fn decode_transform(b: &Vec<u8>) -> (r: Option<Matrix>)
    ensures
        r.is_some() <==> b@.len() >= 64,
        r matches Some(m) ==> m@ == decoded_transform(b@),
{
    if b.len() < 64 {
        return None;
    }
    let mut m: Matrix = [0u32; 16];
    let mut i: usize = 0;
    while i < 16
        invariant
            0 <= i <= 16,
            b@.len() >= 64,
            forall|j: int| 0 <= j < i ==> #[trigger] m@[j] == word_at(b@, 4 * j),
        decreases 16 - i,
    {
        let k = 4 * i;
        let w = (b[k] as u32) | ((b[k + 1] as u32) << 8u32) | ((b[k + 2] as u32) << 16u32) | ((
        b[k + 3] as u32) << 24u32);
        m[i] = w;
        i += 1;
    }
    assert(m@ =~= decoded_transform(b@));
    Some(m)
}

/// Decoding the transform of an encoded record gives back the record's transform, bit for
/// bit.
pub proof fn lemma_transform_round_trip(d: QuadBezierData)
    ensures
        decoded_transform(bytes_of_words(d.words())) == d.transform@,
{
    let b = bytes_of_words(d.words());
    assert forall|i: int| 0 <= i < 16 implies #[trigger] decoded_transform(b)[i] == d.transform@[i] by {
        let w = d.words()[i];
        assert(d.words()[i] == d.transform@[i]);
        assert((4 * i) / 4 == i && (4 * i + 1) / 4 == i && (4 * i + 2) / 4 == i && (4 * i + 3) / 4 == i);
        assert((4 * i) % 4 == 0 && (4 * i + 1) % 4 == 1 && (4 * i + 2) % 4 == 2 && (4 * i + 3) % 4 == 3);
        lemma_word_bytes(w);
    }
    assert(decoded_transform(b) =~= d.transform@);
}

} // verus!

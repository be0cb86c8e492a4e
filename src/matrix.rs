use vstd::prelude::*;

verus! {

/// A 4x4 matrix of single-precision floats, column-major, each entry held as its IEEE-754 bit
/// pattern. This is the layout the shader reads.
pub type Matrix = [u32; 16];

/// The bit pattern of `1.0`.
pub const ONE: u32 = 0x3f80_0000;

/// The bit pattern of `0.0`.
pub const ZERO: u32 = 0;

/// What glam's `Mat4::mul_mat4` returns for two column-major matrices given as bit patterns,
/// where no entry of the product is NaN. Each entry is a fixed sequence of rounded products
/// and sums, the same on every platform; only the bits of a NaN result are left open.
pub uninterp spec fn mat_mul_of(a: Seq<u32>, b: Seq<u32>) -> Seq<u32>;

/// The bit pattern of a NaN: exponent all ones and a non-zero fraction.
pub open spec fn is_nan_bits(b: u32) -> bool {
    (b >> 23u32) & 0xff == 0xff && b & 0x7f_ffff != 0
}

/// No entry of `m` is NaN.
pub open spec fn no_nan(m: Seq<u32>) -> bool {
    forall|i: int| 0 <= i < m.len() ==> !is_nan_bits(#[trigger] m[i])
}

/// The identity matrix: ones on the diagonal (entries 0, 5, 10, 15), zeros elsewhere.
pub open spec fn is_identity(m: Seq<u32>) -> bool {
    &&& m.len() == 16
    &&& forall|i: int| 0 <= i < 16 ==> #[trigger] m[i] == if i % 5 == 0 { ONE } else { ZERO }
}

/// A translation by `(x, y, z)`: the identity with the last column set to `(x, y, z, 1)`.
pub open spec fn is_translation(m: Seq<u32>, x: u32, y: u32, z: u32) -> bool {
    &&& m.len() == 16
    &&& forall|i: int|
        0 <= i < 12 ==> #[trigger] m[i] == if i % 5 == 0 { ONE } else { ZERO }
    &&& m[12] == x && m[13] == y && m[14] == z && m[15] == ONE
}

/// A scale by `(x, y, z)`: `x`, `y`, `z` and `1` on the diagonal, zeros elsewhere.
pub open spec fn is_scale(m: Seq<u32>, x: u32, y: u32, z: u32) -> bool {
    &&& m.len() == 16
    &&& forall|i: int| 0 <= i < 16 && i % 5 != 0 ==> #[trigger] m[i] == ZERO
    &&& m[0] == x && m[5] == y && m[10] == z && m[15] == ONE
}

/// A rotation about the z axis: the first two columns are `(c, s, 0, 0)` and `(-s, c, 0, 0)`
/// for some `c` and `s`, and the last two are those of the identity.
pub open spec fn is_rotation_z(m: Seq<u32>) -> bool {
    &&& m.len() == 16
    &&& m[5] == m[0] && m[4] == m[1] ^ 0x8000_0000u32
    &&& m[2] == ZERO && m[3] == ZERO && m[6] == ZERO && m[7] == ZERO
    &&& m[8] == ZERO && m[9] == ZERO && m[10] == ONE && m[11] == ZERO
    &&& m[12] == ZERO && m[13] == ZERO && m[14] == ZERO && m[15] == ONE
}

pub fn identity() -> (r: Matrix)
    ensures
        is_identity(r@),
{
    let r: Matrix = [ONE, ZERO, ZERO, ZERO, ZERO, ONE, ZERO, ZERO, ZERO, ZERO, ONE, ZERO, ZERO, ZERO, ZERO, ONE];
    assert(is_identity(r@));
    r
}

/// The matrix that moves points by `(x, y, z)` (the same entries as glam's
/// `Mat4::from_translation`).
pub fn translation(x: u32, y: u32, z: u32) -> (r: Matrix)
    ensures
        is_translation(r@, x, y, z),
{
    let r: Matrix = [ONE, ZERO, ZERO, ZERO, ZERO, ONE, ZERO, ZERO, ZERO, ZERO, ONE, ZERO, x, y, z, ONE];
    assert(is_translation(r@, x, y, z));
    r
}

/// The matrix that scales by `(x, y, z)` (the same entries as glam's `Mat4::from_scale`).
pub fn scale(x: u32, y: u32, z: u32) -> (r: Matrix)
    ensures
        is_scale(r@, x, y, z),
{
    let r: Matrix = [x, ZERO, ZERO, ZERO, ZERO, y, ZERO, ZERO, ZERO, ZERO, z, ZERO, ZERO, ZERO, ZERO, ONE];
    assert(is_scale(r@, x, y, z));
    r
}

/// Relies on glam's `Mat4::mul_mat4` (through bevy): the product `a * b` of two column-major
/// matrices. Its entries are computed in one fixed order on every platform, so a product
/// without NaN entries depends on the entries of `a` and `b` alone.
#[verifier::external_body]
pub(crate) fn mat_mul(a: &Matrix, b: &Matrix) -> (r: Matrix)
    ensures
        no_nan(r@) ==> r@ == mat_mul_of(a@, b@),
{
    let a = bevy::math::Mat4::from_cols_slice(bevy::core::cast_slice(&a[..]));
    let b = bevy::math::Mat4::from_cols_slice(bevy::core::cast_slice(&b[..]));
    let m = a.mul_mat4(&b).to_cols_array();
    let mut r: Matrix = [0u32; 16];
    r.copy_from_slice(bevy::core::cast_slice(&m[..]));
    r
}

/// Relies on glam's `Mat4::from_rotation_z`: a rotation by `angle` radians (given as its bit
/// pattern) about the z axis, built from columns `(cos, sin, 0, 0)`, `(-sin, cos, 0, 0)` and
/// those of the identity; negation flips the sign bit. The sine and cosine come from the
/// platform, so their values are not stated.
#[verifier::external_body]
pub(crate) fn rotation_z(angle: u32) -> (r: Matrix)
    ensures
        is_rotation_z(r@),
{
    let m = bevy::math::Mat4::from_rotation_z(bevy::core::cast_slice(&[angle][..])[0]).to_cols_array();
    let mut r: Matrix = [0u32; 16];
    r.copy_from_slice(bevy::core::cast_slice(&m[..]));
    r
}

} // verus!

//! 4x4 transform matrices, carried as column-major IEEE-754 bit patterns.
//!
//! The core never performs floating-point arithmetic itself: matrix values
//! flow through it verbatim, and the few products it needs are computed by
//! the linear-algebra crate behind named, trusted entry points. A product
//! is a function of its operands alone, so each result bears a name that
//! the contracts downstream speak of.

use vstd::prelude::*;

verus! {

/// A 4x4 matrix: sixteen column-major IEEE-754 single-precision bit
/// patterns.
pub type Mat = [u32; 16];

/// Bit pattern of floating-point one.
pub const ONE_F32_BITS: u32 = 0x3F80_0000;

/// Bit pattern of floating-point one tenth: the light markers' scale.
pub const TENTH_F32_BITS: u32 = 0x3DCC_CCCD;

/// The matrix product of two 4x4 matrices given as bit patterns.
pub uninterp spec fn mat_mul_of(a: Seq<u32>, b: Seq<u32>) -> Seq<u32>;

/// The translation matrix moving the origin to (x, y, z).
pub uninterp spec fn translation_mat_of(x: u32, y: u32, z: u32) -> Seq<u32>;

/// The uniform scale matrix with factor `s` on all three axes.
pub uninterp spec fn uniform_scale_mat_of(s: u32) -> Seq<u32>;

/// Relies on glam::Mat4::mul_mat4 for the 4x4 matrix product; the operands
/// and result cross the boundary as plain bit patterns.
#[verifier::external_body]
pub fn mat_mul(a: &Mat, b: &Mat) -> (r: Mat)
    ensures
        r@ == mat_mul_of(a@, b@),
{
    let am: glam::Mat4 = bytemuck::cast(*a);
    let bm: glam::Mat4 = bytemuck::cast(*b);
    bytemuck::cast(am.mul_mat4(&bm))
}

/// Relies on glam::Mat4::from_translation for the translation matrix.
#[verifier::external_body]
pub fn translation_mat(x: u32, y: u32, z: u32) -> (r: Mat)
    ensures
        r@ == translation_mat_of(x, y, z),
{
    let v = glam::Vec3::new(bytemuck::cast(x), bytemuck::cast(y), bytemuck::cast(z));
    bytemuck::cast(glam::Mat4::from_translation(v))
}

/// Relies on glam::Mat4::from_scale for the uniform scale matrix.
#[verifier::external_body]
pub fn uniform_scale_mat(s: u32) -> (r: Mat)
    ensures
        r@ == uniform_scale_mat_of(s),
{
    bytemuck::cast(glam::Mat4::from_scale(glam::Vec3::splat(bytemuck::cast(s))))
}

/// The identity matrix as bit patterns: one on the diagonal, zero
/// elsewhere.
pub open spec fn spec_identity_mat() -> Seq<u32> {
    Seq::new(16, |i: int| if i == 0 || i == 5 || i == 10 || i == 15 {
        ONE_F32_BITS
    } else {
        0u32
    })
}

/// Builds the identity matrix.
pub fn identity_mat() -> (r: Mat)
    ensures
        r@ == spec_identity_mat(),
{
    let mut m: Mat = [0u32; 16];
    m[0] = ONE_F32_BITS;
    m[5] = ONE_F32_BITS;
    m[10] = ONE_F32_BITS;
    m[15] = ONE_F32_BITS;
    proof {
        assert(m@ =~= spec_identity_mat());
    }
    m
}

} // verus!

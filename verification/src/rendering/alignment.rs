//! Row-alignment arithmetic.
//!
//! A GPU copies texture rows into host-readable buffers only at strides that
//! are a multiple of a fixed alignment, so a row of pixel bytes may need
//! trailing padding. The same arithmetic sizes the compositor's read-back
//! buffer and tells the image codec how much padding to strip.

use vstd::prelude::*;

verus! {

use vstd::arithmetic::div_mod::{
    lemma_fundamental_div_mod,
    lemma_mod_bound,
    lemma_mod_multiples_basic,
    lemma_mod_self_0,
    lemma_small_mod,
};

/// The alignment, in bytes, that GPU buffer copies require of each row's
/// starting offset.
pub const ROW_COPY_ALIGNMENT: usize = 256;

/// The row stride without any padding: one row of pixels, byte for byte.
pub open spec fn spec_unpadded_stride(width: nat, bytes_per_pixel: nat) -> nat {
    width * bytes_per_pixel
}

/// The padding that extends `unpadded` to the next multiple of `alignment`.
pub open spec fn spec_padding(unpadded: nat, alignment: nat) -> nat
    recommends
        0 < alignment,
{
    ((alignment as int - (unpadded % alignment) as int) % (alignment as int)) as nat
}

/// The row stride after padding to `alignment`.
pub open spec fn spec_padded_stride(width: nat, bytes_per_pixel: nat, alignment: nat) -> nat
    recommends
        0 < alignment,
{
    spec_unpadded_stride(width, bytes_per_pixel) + spec_padding(
        spec_unpadded_stride(width, bytes_per_pixel),
        alignment,
    )
}

/// The two strides of one row of a pixel buffer.
#[derive(Clone, Copy, Debug, PartialEq, Eq, Structural)]
pub struct RowLayout {
    /// Bytes of actual pixel data in one row.
    pub unpadded_stride: usize,
    /// Bytes from the start of one row to the start of the next.
    pub padded_stride: usize,
}

/// Computes the strides of a row of `width` pixels at `bytes_per_pixel`,
/// padded to a multiple of `alignment`.
pub fn compute_row_layout(width: usize, bytes_per_pixel: usize, alignment: usize) -> (r: RowLayout)
    requires
        0 < alignment,
        width * bytes_per_pixel + alignment <= usize::MAX,
    ensures
        r.unpadded_stride == spec_unpadded_stride(width as nat, bytes_per_pixel as nat),
        r.padded_stride == spec_padded_stride(width as nat, bytes_per_pixel as nat, alignment as nat),
{
    let unpadded_stride = width * bytes_per_pixel;
    let padding = (alignment - unpadded_stride % alignment) % alignment;
    RowLayout { unpadded_stride, padded_stride: unpadded_stride + padding }
}

/// The padded stride is the least multiple of the alignment that holds a
/// row, for every width (zero included): it is itself a multiple of the
/// alignment, it is never shorter than the unpadded stride, it falls short
/// of `unpadded + alignment`, and a row that already sits on the alignment
/// needs no padding at all.
pub proof fn lemma_padded_stride_properties(width: nat, bytes_per_pixel: nat, alignment: nat)
    requires
        0 < alignment,
    ensures
        spec_padded_stride(width, bytes_per_pixel, alignment) % alignment == 0,
        spec_padded_stride(width, bytes_per_pixel, alignment) >= spec_unpadded_stride(
            width,
            bytes_per_pixel,
        ),
        spec_padded_stride(width, bytes_per_pixel, alignment) < spec_unpadded_stride(
            width,
            bytes_per_pixel,
        ) + alignment,
        spec_unpadded_stride(width, bytes_per_pixel) % alignment == 0
            ==> spec_padded_stride(width, bytes_per_pixel, alignment) == spec_unpadded_stride(
            width,
            bytes_per_pixel,
        ),
{
    lemma_padding_bounds(spec_unpadded_stride(width, bytes_per_pixel), alignment);
    if spec_unpadded_stride(width, bytes_per_pixel) % alignment == 0 {
        lemma_mod_self_0(alignment as int);
    }
}

/// Core padding facts, stated over the unpadded stride alone: the padded
/// stride `unpadded + spec_padding(unpadded, alignment)` is a multiple of the
/// alignment and adds strictly less than one alignment unit.
pub proof fn lemma_padding_bounds(unpadded: nat, alignment: nat)
    requires
        0 < alignment,
    ensures
        (unpadded + spec_padding(unpadded, alignment)) % alignment == 0,
        spec_padding(unpadded, alignment) < alignment,
{
    let u = unpadded as int;
    let a = alignment as int;
    let r = u % a;
    lemma_mod_bound(u, a);
    if r == 0 {
        lemma_mod_self_0(a);
        assert(spec_padding(unpadded, alignment) == a % a);
        assert((u + 0) % a == 0);
    } else {
        lemma_small_mod((a - r) as nat, alignment);
        assert(spec_padding(unpadded, alignment) == a - r);
        lemma_fundamental_div_mod(u, a);
        assert(u == a * (u / a) + r);
        assert(u + (a - r) == a * (u / a) + a) by {
            assert(u == a * (u / a) + r);
        }
        assert(a * (u / a) + a == a * (u / a + 1)) by (nonlinear_arith);
        lemma_mod_multiples_basic(u / a + 1, a);
    }
}

} // verus!

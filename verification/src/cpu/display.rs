//! Display rows as 64-bit words, and the bit-level facts that tie them to
//! pixels.

use vstd::prelude::*;

verus! {

/// Whether the pixel in column `col` of a display row is lit. Column 0 is the
/// leftmost pixel and the most significant bit of the row's word.
pub open spec fn row_pixel(row: u64, col: u64) -> bool {
    col < 64 && (row >> (63 - col) as u64) & 1 == 1
}

/// Whether pixel `j` of a sprite line is set. Pixel 0 is the leftmost pixel
/// and the most significant bit of the line's byte.
pub open spec fn line_pixel(line: u8, j: u64) -> bool {
    j < 8 && ((line as u64) >> (7 - j) as u64) & 1 == 1
}

/// The row word of a sprite line drawn with its left edge in column `left`.
/// Pixels that would fall right of column 63 are not part of it.
pub open spec fn line_mask(line: u8, left: u8) -> u64 {
    if left >= 64 {
        0
    } else {
        ((line as u64) << 56) >> (left as u64)
    }
}

/// A pixel of a positioned sprite line is lit exactly where the line has a
/// set pixel, counted from its left edge.
pub proof fn lemma_line_mask_pixel(line: u8, left: u8, col: u64)
    requires
        col < 64,
    ensures
        row_pixel(line_mask(line, left), col) == (left <= col && line_pixel(
            line,
            (col - left) as u64,
        )),
{
    if left >= 64 {
        lemma_row_zero(col);
    } else {
        let l: u64 = left as u64;
        let w: u64 = line as u64;
        if l <= col {
            let j: u64 = (col - l) as u64;
            assert(((((w << 56) >> l) >> (63 - col) as u64) & 1 == 1) == (j < 8 && (w >> (7
                - j) as u64) & 1 == 1)) by (bit_vector)
                requires
                    l <= col,
                    col < 64,
                    j == col - l,
                    w < 256,
            ;
        } else {
            assert((((w << 56) >> l) >> (63 - col) as u64) & 1 == 0) by (bit_vector)
                requires
                    col < l,
                    l < 64,
            ;
        }
    }
}

/// Exclusive or of two rows flips exactly the pixels that are lit in the
/// second.
pub proof fn lemma_xor_pixel(a: u64, b: u64, col: u64)
    requires
        col < 64,
    ensures
        row_pixel(a ^ b, col) == (row_pixel(a, col) != row_pixel(b, col)),
        row_pixel(a & b, col) == (row_pixel(a, col) && row_pixel(b, col)),
{
    assert((((a ^ b) >> (63 - col) as u64) & 1 == 1) == (((a >> (63 - col) as u64) & 1 == 1) != ((b
        >> (63 - col) as u64) & 1 == 1)) && (((a & b) >> (63 - col) as u64) & 1 == 1) == (((a >> (63
        - col) as u64) & 1 == 1) && ((b >> (63 - col) as u64) & 1 == 1))) by (bit_vector)
        requires
            col < 64,
    ;
}

/// The zero word is a row with every pixel off.
pub proof fn lemma_row_zero(col: u64)
    ensures
        !row_pixel(0, col),
{
    if col < 64 {
        assert((0u64 >> (63 - col) as u64) & 1 == 0) by (bit_vector);
    }
}

/// A word with a set bit at or above bit `k` is a row with a lit pixel.
proof fn lemma_lit_from(row: u64, k: u64)
    requires
        k < 64,
        row >> k != 0,
    ensures
        exists|col: u64| col < 64 && row_pixel(row, col),
    decreases 64 - k,
{
    if (row >> k) & 1 == 1 {
        let col: u64 = (63 - k) as u64;
        assert((63 - col) as u64 == k);
        assert(row_pixel(row, col));
    } else {
        assert(k < 63 && row >> (k + 1) as u64 != 0) by (bit_vector)
            requires
                k < 64,
                row >> k != 0,
                (row >> k) & 1 != 1,
        ;
        lemma_lit_from(row, (k + 1) as u64);
    }
}

/// A row word is non-zero exactly when one of its pixels is lit.
pub proof fn lemma_nonzero_row(row: u64)
    ensures
        row != 0 <==> exists|col: u64| col < 64 && row_pixel(row, col),
{
    if row != 0 {
        assert(row >> 0 == row) by (bit_vector);
        lemma_lit_from(row, 0);
    } else {
        assert forall|col: u64| col < 64 implies !row_pixel(row, col) by {
            lemma_row_zero(col);
        }
    }
}

} // verus!

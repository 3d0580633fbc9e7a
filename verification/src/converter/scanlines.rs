//! Rearranging planar YCbCr 4:2:0 data into interleaved scanlines.
//!
//! Row `r` of the output holds, for each pixel `x`, the three bytes
//! `Y[r * stride_y + x]`, `Cb[(r / 2) * stride_cb + x / 2]` and
//! `Cr[(r / 2) * stride_cr + x / 2]`.

use vstd::prelude::*;

verus! {

/// Byte `i` of interleaved row `row`.
pub open spec fn ycbcr_byte(
    y: Seq<u8>,
    cb: Seq<u8>,
    cr: Seq<u8>,
    stride_y: int,
    stride_cb: int,
    stride_cr: int,
    row: int,
    i: int,
) -> u8 {
    let x = i / 3;
    if i % 3 == 0 {
        y[row * stride_y + x]
    } else if i % 3 == 1 {
        cb[(row / 2) * stride_cb + x / 2]
    } else {
        cr[(row / 2) * stride_cr + x / 2]
    }
}

/// Interleaved row `row` of an image `width` pixels wide: `3 * width` bytes.
pub open spec fn ycbcr_scanline(
    y: Seq<u8>,
    cb: Seq<u8>,
    cr: Seq<u8>,
    stride_y: int,
    stride_cb: int,
    stride_cr: int,
    width: int,
    row: int,
) -> Seq<u8> {
    Seq::new(
        (3 * width) as nat,
        |i: int| ycbcr_byte(y, cb, cr, stride_y, stride_cb, stride_cr, row, i),
    )
}

/// The first `rows` interleaved rows.
pub open spec fn ycbcr_scanlines(
    y: Seq<u8>,
    cb: Seq<u8>,
    cr: Seq<u8>,
    stride_y: int,
    stride_cb: int,
    stride_cr: int,
    width: int,
    rows: int,
) -> Seq<Seq<u8>> {
    Seq::new(
        rows as nat,
        |r: int| ycbcr_scanline(y, cb, cr, stride_y, stride_cb, stride_cr, width, r),
    )
}

/// A full-resolution plane holds every byte that a `width` x `height` image reads.
pub open spec fn luma_plane_fits(len: int, stride: int, width: int, height: int) -> bool {
    (height - 1) * stride + (width - 1) < len
}

/// A half-resolution plane holds every byte that a `width` x `height` image reads.
pub open spec fn chroma_plane_fits(len: int, stride: int, width: int, height: int) -> bool {
    ((height - 1) / 2) * stride + (width - 1) / 2 < len
}

/// The three planes hold every byte that interleaving a non-empty
/// `width` x `height` image reads.
pub open spec fn planes_fit(
    y_len: int,
    cb_len: int,
    cr_len: int,
    stride_y: int,
    stride_cb: int,
    stride_cr: int,
    width: int,
    height: int,
) -> bool {
    &&& width >= 1
    &&& height >= 1
    &&& luma_plane_fits(y_len, stride_y, width, height)
    &&& chroma_plane_fits(cb_len, stride_cb, width, height)
    &&& chroma_plane_fits(cr_len, stride_cr, width, height)
}

/// Law (4:2:0 sampling): rows `2k` and `2k + 1` carry the same chroma bytes.
pub proof fn lemma_row_pairs_share_chroma(
    y: Seq<u8>,
    cb: Seq<u8>,
    cr: Seq<u8>,
    stride_y: int,
    stride_cb: int,
    stride_cr: int,
    width: int,
    k: int,
    i: int,
)
    requires
        0 <= k,
        0 <= i < 3 * width,
        i % 3 != 0,
    ensures
        ycbcr_scanline(y, cb, cr, stride_y, stride_cb, stride_cr, width, 2 * k)[i]
            == ycbcr_scanline(y, cb, cr, stride_y, stride_cb, stride_cr, width, 2 * k + 1)[i],
{
    assert((2 * k) / 2 == k);
    assert((2 * k + 1) / 2 == k);
}

/// Law (4:2:0 sampling): pixels `2j` and `2j + 1` of a row carry the same
/// chroma bytes, and each pixel's luma byte comes from its own column.
pub proof fn lemma_pixel_pairs_share_chroma(
    y: Seq<u8>,
    cb: Seq<u8>,
    cr: Seq<u8>,
    stride_y: int,
    stride_cb: int,
    stride_cr: int,
    width: int,
    row: int,
    j: int,
)
    requires
        0 <= j,
        2 * j + 1 < width,
    ensures
        ({
            let line = ycbcr_scanline(y, cb, cr, stride_y, stride_cb, stride_cr, width, row);
            &&& line[6 * j + 1] == line[6 * j + 4]
            &&& line[6 * j + 2] == line[6 * j + 5]
            &&& line[6 * j] == y[row * stride_y + 2 * j]
            &&& line[6 * j + 3] == y[row * stride_y + 2 * j + 1]
        }),
{
    lemma_div_mod_3(2 * j, 0);
    lemma_div_mod_3(2 * j, 1);
    lemma_div_mod_3(2 * j, 2);
    lemma_div_mod_3(2 * j + 1, 0);
    lemma_div_mod_3(2 * j + 1, 1);
    lemma_div_mod_3(2 * j + 1, 2);
    assert((2 * j) / 2 == j);
    assert((2 * j + 1) / 2 == j);
}

proof fn lemma_mul_le(a: int, b: int, c: int)
    by (nonlinear_arith)
    requires
        0 <= a <= b,
        0 <= c,
    ensures
        a * c <= b * c,
        0 <= a * c,
{
}

proof fn lemma_div_mod_3(x: int, k: int)
    by (nonlinear_arith)
    requires
        0 <= x,
        0 <= k < 3,
    ensures
        (3 * x + k) / 3 == x,
        (3 * x + k) % 3 == k,
{
}

/// `row * stride + col` computed without overflow, when it stays below `len`.
fn fits_below(row: usize, stride: usize, col: usize, len: usize) -> (ok: bool)
    ensures
        ok == (row * stride + col < len),
{
    match row.checked_mul(stride) {
        Some(offset) => match offset.checked_add(col) {
            Some(end) => end < len,
            None => false,
        },
        None => {
            proof {
                lemma_mul_le(0, row as int, stride as int);
            }
            false
        },
    }
}

/// Whether the planes hold every byte that interleaving reads.
pub fn planes_fit_exec(
    y_len: usize,
    cb_len: usize,
    cr_len: usize,
    stride_y: usize,
    stride_cb: usize,
    stride_cr: usize,
    width: usize,
    height: usize,
) -> (ok: bool)
    ensures
        ok == planes_fit(
            y_len as int,
            cb_len as int,
            cr_len as int,
            stride_y as int,
            stride_cb as int,
            stride_cr as int,
            width as int,
            height as int,
        ),
{
    if width == 0 || height == 0 {
        return false;
    }
    fits_below(height - 1, stride_y, width - 1, y_len) && fits_below(
        (height - 1) / 2,
        stride_cb,
        (width - 1) / 2,
        cb_len,
    ) && fits_below((height - 1) / 2, stride_cr, (width - 1) / 2, cr_len)
}

/// Replaces the contents of `out` with interleaved row `row`.
pub fn interleave_row(
    y: &[u8],
    cb: &[u8],
    cr: &[u8],
    stride_y: usize,
    stride_cb: usize,
    stride_cr: usize,
    width: usize,
    height: usize,
    row: usize,
    out: &mut Vec<u8>,
)
    requires
        planes_fit(
            y@.len() as int,
            cb@.len() as int,
            cr@.len() as int,
            stride_y as int,
            stride_cb as int,
            stride_cr as int,
            width as int,
            height as int,
        ),
        row < height,
    ensures
        final(out)@ == ycbcr_scanline(
            y@,
            cb@,
            cr@,
            stride_y as int,
            stride_cb as int,
            stride_cr as int,
            width as int,
            row as int,
        ),
{
    out.clear();
    let y_len = y.len();
    let cb_len = cb.len();
    let cr_len = cr.len();
    proof {
        assert(row <= height - 1);
        assert(row / 2 <= (height - 1) / 2);
        lemma_mul_le(row as int, (height - 1) as int, stride_y as int);
        lemma_mul_le((row / 2) as int, ((height - 1) / 2) as int, stride_cb as int);
        lemma_mul_le((row / 2) as int, ((height - 1) / 2) as int, stride_cr as int);
    }
    assert(row * stride_y <= (height - 1) * stride_y);
    assert((row / 2) * stride_cb <= ((height - 1) / 2) * stride_cb);
    assert((row / 2) * stride_cr <= ((height - 1) / 2) * stride_cr);
    let offset_y: usize = row * stride_y;
    let offset_cb: usize = (row / 2) * stride_cb;
    let offset_cr: usize = (row / 2) * stride_cr;
    let ghost line = ycbcr_scanline(
        y@,
        cb@,
        cr@,
        stride_y as int,
        stride_cb as int,
        stride_cr as int,
        width as int,
        row as int,
    );
    let mut x: usize = 0;
    while x < width
        invariant
            x <= width,
            offset_y == row * stride_y,
            offset_cb == (row / 2) * stride_cb,
            offset_cr == (row / 2) * stride_cr,
            y_len == y@.len(),
            cb_len == cb@.len(),
            cr_len == cr@.len(),
            offset_y + (width - 1) < y@.len(),
            offset_cb + (width - 1) / 2 < cb@.len(),
            offset_cr + (width - 1) / 2 < cr@.len(),
            line.len() == 3 * width,
            line == ycbcr_scanline(
                y@,
                cb@,
                cr@,
                stride_y as int,
                stride_cb as int,
                stride_cr as int,
                width as int,
                row as int,
            ),
            out@.len() == 3 * x,
            forall|i: int| 0 <= i < 3 * x ==> #[trigger] out@[i] == line[i],
        decreases width - x,
    {
        proof {
            lemma_div_mod_3(x as int, 0);
            lemma_div_mod_3(x as int, 1);
            lemma_div_mod_3(x as int, 2);
            assert(x / 2 <= (width - 1) / 2);
        }
        out.push(y[offset_y + x]);
        out.push(cb[offset_cb + x / 2]);
        out.push(cr[offset_cr + x / 2]);
        x = x + 1;
    }
    assert(out@ =~= line);
}

} // verus!

//! Byte layout of the output pixel buffer.
//!
//! The renderer hands its pixel grid to an image encoder as one flat
//! byte buffer: rows from first to last, pixels left to right within a
//! row, and three bytes (red, green, blue) per pixel.  Quantising a
//! floating-point colour to its three bytes is the caller's job; this
//! module fixes the layout.

use vstd::prelude::*;

verus! {

/// The three bytes of one pixel: red, green, blue.
pub open spec fn pixel_bytes(p: (u8, u8, u8)) -> Seq<u8> {
    seq![p.0, p.1, p.2]
}

/// The bytes of one row of pixels, left to right.
pub open spec fn row_bytes(row: Seq<(u8, u8, u8)>) -> Seq<u8>
    decreases row.len(),
{
    if row.len() == 0 {
        Seq::empty()
    } else {
        row_bytes(row.drop_last()) + pixel_bytes(row.last())
    }
}

/// The bytes of a whole pixel grid, first row first.
pub open spec fn image_bytes(rows: Seq<Seq<(u8, u8, u8)>>) -> Seq<u8>
    decreases rows.len(),
{
    if rows.len() == 0 {
        Seq::empty()
    } else {
        image_bytes(rows.drop_last()) + row_bytes(rows.last())
    }
}

/// The views of the rows of a pixel grid.
pub open spec fn rows_view(rows: Seq<Vec<(u8, u8, u8)>>) -> Seq<Seq<(u8, u8, u8)>> {
    rows.map_values(|r: Vec<(u8, u8, u8)>| r@)
}

/// A row of `n` pixels takes `3 * n` bytes.
pub proof fn lemma_row_bytes_len(row: Seq<(u8, u8, u8)>)
    ensures
        row_bytes(row).len() == 3 * row.len(),
    decreases row.len(),
{
    if row.len() > 0 {
        lemma_row_bytes_len(row.drop_last());
    }
}

/// Within a row, pixel `x` occupies bytes `3 * x` to `3 * x + 2`.
pub proof fn lemma_row_bytes_index(row: Seq<(u8, u8, u8)>, x: int)
    requires
        0 <= x < row.len(),
    ensures
        row_bytes(row).len() == 3 * row.len(),
        row_bytes(row)[3 * x] == row[x].0,
        row_bytes(row)[3 * x + 1] == row[x].1,
        row_bytes(row)[3 * x + 2] == row[x].2,
    decreases row.len(),
{
    lemma_row_bytes_len(row);
    if x < row.len() - 1 {
        lemma_row_bytes_index(row.drop_last(), x);
    } else {
        lemma_row_bytes_len(row.drop_last());
    }
}

/// In a rectangular grid of `width`-pixel rows, the pixel at row `y`
/// and column `x` occupies the three bytes starting at
/// `3 * (y * width + x)`: the layout is row-major with three bytes per
/// pixel.
pub proof fn lemma_image_bytes_index(rows: Seq<Seq<(u8, u8, u8)>>, width: int, y: int, x: int)
    requires
        forall|i: int| 0 <= i < rows.len() ==> (#[trigger] rows[i]).len() == width,
        0 <= y < rows.len(),
        0 <= x < width,
    ensures
        image_bytes(rows).len() == 3 * width * rows.len(),
        image_bytes(rows)[3 * (y * width + x)] == rows[y][x].0,
        image_bytes(rows)[3 * (y * width + x) + 1] == rows[y][x].1,
        image_bytes(rows)[3 * (y * width + x) + 2] == rows[y][x].2,
    decreases rows.len(),
{
    lemma_image_bytes_len(rows, width);
    let n = rows.len() as int;
    lemma_image_bytes_len(rows.drop_last(), width);
    lemma_row_bytes_len(rows.last());
    if y < n - 1 {
        lemma_image_bytes_index(rows.drop_last(), width, y, x);
        assert(3 * (y * width + x) + 2 < 3 * width * (n - 1)) by (nonlinear_arith)
            requires
                0 <= y < n - 1,
                0 <= x < width,
        ;
    } else {
        lemma_row_bytes_index(rows.last(), x);
        assert(3 * (y * width + x) == 3 * width * (n - 1) + 3 * x) by (nonlinear_arith)
            requires
                y == n - 1,
        ;
    }
}

/// A rectangular grid of `n` rows of `width` pixels takes
/// `3 * width * n` bytes.
pub proof fn lemma_image_bytes_len(rows: Seq<Seq<(u8, u8, u8)>>, width: int)
    requires
        forall|i: int| 0 <= i < rows.len() ==> (#[trigger] rows[i]).len() == width,
    ensures
        image_bytes(rows).len() == 3 * width * rows.len(),
    decreases rows.len(),
{
    let n = rows.len() as int;
    if n > 0 {
        lemma_image_bytes_len(rows.drop_last(), width);
        lemma_row_bytes_len(rows.last());
        assert(3 * width * (n - 1) + 3 * width == 3 * width * n) by (nonlinear_arith);
    }
}

/// Flattens a pixel grid into the byte buffer an image encoder
/// consumes: rows in order, three bytes per pixel.
pub fn to_u8_buf(pixel_colors: &Vec<Vec<(u8, u8, u8)>>) -> (buf: Vec<u8>)
    ensures
        buf@ == image_bytes(rows_view(pixel_colors@)),
{
    let mut buf: Vec<u8> = Vec::new();
    let mut y: usize = 0;
    while y < pixel_colors.len()
        invariant
            0 <= y <= pixel_colors@.len(),
            buf@ == image_bytes(rows_view(pixel_colors@.take(y as int))),
        decreases pixel_colors@.len() - y,
    {
        let row = &pixel_colors[y];
        let mut x: usize = 0;
        while x < row.len()
            invariant
                0 <= y < pixel_colors@.len(),
                0 <= x <= row@.len(),
                row@ == pixel_colors@[y as int]@,
                buf@ == image_bytes(rows_view(pixel_colors@.take(y as int))) + row_bytes(
                    row@.take(x as int),
                ),
            decreases row@.len() - x,
        {
            let p = row[x];
            buf.push(p.0);
            buf.push(p.1);
            buf.push(p.2);
            proof {
                assert(row@.take(x + 1).drop_last() =~= row@.take(x as int));
                assert(row@.take(x + 1).last() == p);
            }
            x = x + 1;
        }
        proof {
            assert(row@.take(row@.len() as int) =~= row@);
            assert(rows_view(pixel_colors@.take(y + 1)).drop_last() =~= rows_view(
                pixel_colors@.take(y as int),
            ));
            assert(rows_view(pixel_colors@.take(y + 1)).last() == row@);
        }
        y = y + 1;
    }
    proof {
        assert(pixel_colors@.take(pixel_colors@.len() as int) =~= pixel_colors@);
    }
    buf
}

} // verus!

//! Laying a picture out in a mapped scanout buffer.
//!
//! The buffer holds `height` rows of `pitch` bytes each. A row starts with
//! `width` cells of four bytes, one per pixel, and may end in padding. A cell
//! holds its pixel as blue, green, red, alpha: ARGB8888 is little-endian
//! whatever the byte order of the host.

use vstd::prelude::*;
use vstd::arithmetic::div_mod::lemma_fundamental_div_mod_converse;
use vstd::arithmetic::div_mod::lemma_fundamental_div_mod;
use crate::picture::{Picture, Raster, Rgba, image_get_pixel};

verus! {

/// Whether a mapping of `len` bytes holds `height` rows of `pitch` bytes, each
/// wide enough for `width` four-byte cells.
pub open spec fn layout_fits(width: u32, height: u32, pitch: u32, len: nat) -> bool {
    4 * width <= pitch && height * pitch <= len
}

/// Decides whether a mapping of `len` bytes fits the layout.
pub fn check_layout(width: u32, height: u32, pitch: u32, len: usize) -> (fits: bool)
    ensures
        fits == layout_fits(width, height, pitch, len as nat),
{
    let row: u64 = 4 * (width as u64);
    assert(height * pitch <= 0xffff_ffff * 0xffff_ffff) by (nonlinear_arith)
        requires
            0 <= height <= 0xffff_ffff,
            0 <= pitch <= 0xffff_ffff,
    ;
    let rows: u64 = (height as u64) * (pitch as u64);
    row <= pitch as u64 && rows <= len as u64
}

/// The byte of a pixel that is stored at position `k` of its cell.
pub open spec fn cell_byte(pixel: Rgba, k: int) -> u8 {
    if k == 0 {
        pixel.blue
    } else if k == 1 {
        pixel.green
    } else if k == 2 {
        pixel.red
    } else {
        pixel.alpha
    }
}

/// Where the cell of pixel `(x, y)` starts in the buffer.
pub open spec fn cell_offset(pitch: u32, x: int, y: int) -> int {
    x * 4 + y * pitch
}

/// Whether the byte at `offset` belongs to the cell of a pixel that both the
/// picture and the buffer have, in a row before `rows`.
pub open spec fn is_written(
    raster: Raster,
    width: u32,
    rows: int,
    pitch: u32,
    offset: int,
) -> bool {
    &&& pitch > 0
    &&& 0 <= offset
    &&& offset / (pitch as int) < rows
    &&& offset / (pitch as int) < raster.height
    &&& (offset % (pitch as int)) / 4 < width
    &&& (offset % (pitch as int)) / 4 < raster.width
}

/// The byte that the copy stores at a written `offset`.
pub open spec fn written_byte(raster: Raster, pitch: u32, offset: int) -> u8 {
    let within = offset % (pitch as int);
    cell_byte(raster.pixel(within / 4, offset / (pitch as int)), within % 4)
}

/// The buffer after the first `rows` rows of the picture have been copied.
pub open spec fn painted_rows(
    before: Seq<u8>,
    raster: Raster,
    width: u32,
    rows: int,
    pitch: u32,
) -> Seq<u8> {
    Seq::new(
        before.len(),
        |offset: int|
            if is_written(raster, width, rows, pitch, offset) {
                written_byte(raster, pitch, offset)
            } else {
                before[offset]
            },
    )
}

/// The buffer after the whole picture has been copied: every pixel that lies
/// inside both the picture and the `width` by `height` buffer fills its cell,
/// and every other byte is as before.
pub open spec fn painted(
    before: Seq<u8>,
    raster: Raster,
    width: u32,
    height: u32,
    pitch: u32,
) -> Seq<u8> {
    painted_rows(before, raster, width, height as int, pitch)
}

/// The bytes of a cell divide by the pitch into the cell's row and column.
pub proof fn lemma_cell_position(pitch: u32, x: int, y: int, k: int)
    requires
        0 <= x,
        0 <= y,
        0 <= k < 4,
        4 * x + 4 <= pitch,
    ensures
        (cell_offset(pitch, x, y) + k) / (pitch as int) == y,
        (cell_offset(pitch, x, y) + k) % (pitch as int) == 4 * x + k,
        (4 * x + k) / 4 == x,
        (4 * x + k) % 4 == k,
{
    lemma_fundamental_div_mod_converse(cell_offset(pitch, x, y) + k, pitch as int, y, 4 * x + k);
    lemma_fundamental_div_mod_converse(4 * x + k, 4, x, k);
}

/// A byte in row `y` whose position within the row lies in cell `x` is one of
/// the four bytes of that cell.
pub proof fn lemma_position_cell(pitch: u32, offset: int, x: int, y: int)
    requires
        pitch > 0,
        offset / (pitch as int) == y,
        (offset % (pitch as int)) / 4 == x,
    ensures
        cell_offset(pitch, x, y) <= offset < cell_offset(pitch, x, y) + 4,
        offset == cell_offset(pitch, x, y) + (offset % (pitch as int)) % 4,
{
    lemma_fundamental_div_mod(offset, pitch as int);
    lemma_fundamental_div_mod(offset % (pitch as int), 4);
    assert((pitch as int) * y == y * pitch) by (nonlinear_arith);
}

/// Every pixel that both the picture and the buffer have ends up in its
/// cell, as blue, green, red, alpha.
pub proof fn lemma_copied_pixel(
    before: Seq<u8>,
    raster: Raster,
    width: u32,
    height: u32,
    pitch: u32,
    x: int,
    y: int,
    k: int,
)
    requires
        layout_fits(width, height, pitch, before.len()),
        0 <= x < width,
        0 <= y < height,
        raster.contains(x, y),
        0 <= k < 4,
    ensures
        0 <= cell_offset(pitch, x, y) + k < before.len(),
        painted(before, raster, width, height, pitch)[cell_offset(pitch, x, y) + k] == cell_byte(
            raster.pixel(x, y),
            k,
        ),
{
    lemma_cell_position(pitch, x, y, k);
    assert((y + 1) * pitch <= height * pitch) by (nonlinear_arith)
        requires
            y + 1 <= height,
            pitch >= 0,
    ;
    assert((y + 1) * pitch == y * pitch + pitch) by (nonlinear_arith);
    assert(0 <= y * pitch) by (nonlinear_arith)
        requires
            y >= 0,
            pitch >= 0,
    ;
}

/// The copy keeps the length of the buffer and changes no byte outside the
/// cells of the pixels that both the picture and the buffer have: not the
/// padding of a row, not the cells of columns or rows that the picture lacks,
/// and nothing behind the last row of the buffer.
pub proof fn lemma_rest_untouched(
    before: Seq<u8>,
    raster: Raster,
    width: u32,
    height: u32,
    pitch: u32,
    offset: int,
)
    requires
        0 <= offset < before.len(),
    ensures
        painted(before, raster, width, height, pitch).len() == before.len(),
        pitch == 0 ==> painted(before, raster, width, height, pitch)[offset] == before[offset],
        pitch > 0 && (offset % (pitch as int)) / 4 >= width ==> painted(
            before,
            raster,
            width,
            height,
            pitch,
        )[offset] == before[offset],
        pitch > 0 && (offset % (pitch as int)) / 4 >= raster.width ==> painted(
            before,
            raster,
            width,
            height,
            pitch,
        )[offset] == before[offset],
        pitch > 0 && offset / (pitch as int) >= raster.height ==> painted(
            before,
            raster,
            width,
            height,
            pitch,
        )[offset] == before[offset],
        offset >= height * pitch ==> painted(before, raster, width, height, pitch)[offset]
            == before[offset],
{
    if pitch > 0 && offset >= height * pitch {
        lemma_fundamental_div_mod(offset, pitch as int);
        let row = offset / (pitch as int);
        if row < height {
            assert((row + 1) * pitch <= height * pitch) by (nonlinear_arith)
                requires
                    row + 1 <= height,
                    pitch >= 0,
            ;
            assert((row + 1) * pitch == (pitch as int) * row + pitch) by (nonlinear_arith);
        }
    }
}

/// A picture of opaque red that is as large as the buffer puts the bytes
/// 0, 0, 255, 255 at the start of every row and leaves everything behind the
/// last row as it was.
pub proof fn lemma_opaque_red(
    before: Seq<u8>,
    raster: Raster,
    width: u32,
    height: u32,
    pitch: u32,
)
    requires
        layout_fits(width, height, pitch, before.len()),
        width > 0,
        raster.width == width,
        raster.height == height,
        forall|x: int, y: int| #[trigger]
            raster.contains(x, y) ==> raster.pixel(x, y) == (Rgba {
                red: 255,
                green: 0,
                blue: 0,
                alpha: 255,
            }),
    ensures
        forall|y: int|
            0 <= y < height ==> #[trigger] painted(
                before,
                raster,
                width,
                height,
                pitch,
            ).subrange(y * pitch, y * pitch + 4) == seq![0u8, 0u8, 255u8, 255u8],
        forall|offset: int|
            height * pitch <= offset < before.len() ==> #[trigger] painted(
                before,
                raster,
                width,
                height,
                pitch,
            )[offset] == before[offset],
{
    let after = painted(before, raster, width, height, pitch);
    assert forall|y: int| 0 <= y < height implies #[trigger] after.subrange(
        y * pitch,
        y * pitch + 4,
    ) == seq![0u8, 0u8, 255u8, 255u8] by {
        assert(raster.contains(0, y));
        lemma_copied_pixel(before, raster, width, height, pitch, 0, y, 0);
        lemma_copied_pixel(before, raster, width, height, pitch, 0, y, 1);
        lemma_copied_pixel(before, raster, width, height, pitch, 0, y, 2);
        lemma_copied_pixel(before, raster, width, height, pitch, 0, y, 3);
        assert(after.subrange(y * pitch, y * pitch + 4) =~= seq![0u8, 0u8, 255u8, 255u8]);
    }
    assert forall|offset: int| height * pitch <= offset < before.len() implies #[trigger] after[offset]
        == before[offset] by {
        lemma_rest_untouched(before, raster, width, height, pitch, offset);
    }
}

/// Two pictures of one size that agree on the pixels inside the buffer give
/// the same copy: what a picture holds in columns at or beyond the buffer's
/// width, or in rows at or beyond its height, is never looked at.
pub proof fn lemma_clipped_pixels_ignored(
    before: Seq<u8>,
    one: Raster,
    other: Raster,
    width: u32,
    height: u32,
    pitch: u32,
)
    requires
        one.width == other.width,
        one.height == other.height,
        forall|x: int, y: int|
            0 <= x < width && 0 <= y < height && #[trigger] one.contains(x, y) ==> one.pixel(x, y)
                == other.pixel(x, y),
    ensures
        painted(before, one, width, height, pitch) == painted(before, other, width, height, pitch),
{
    let a = painted(before, one, width, height, pitch);
    let b = painted(before, other, width, height, pitch);
    assert forall|offset: int| 0 <= offset < a.len() implies a[offset] == b[offset] by {
        if is_written(one, width, height as int, pitch, offset) {
            let x = (offset % (pitch as int)) / 4;
            let y = offset / (pitch as int);
            lemma_fundamental_div_mod(offset, pitch as int);
            lemma_fundamental_div_mod(offset % (pitch as int), 4);
            assert(one.contains(x, y));
        }
    }
    assert(a =~= b);
}

/// Whether the byte at `offset` has been written once the copy has finished
/// `rows` rows and the first `cols` cells of the next.
spec fn is_written_partly(
    raster: Raster,
    width: u32,
    rows: int,
    cols: int,
    pitch: u32,
    offset: int,
) -> bool {
    ||| is_written(raster, width, rows, pitch, offset)
    ||| {
        &&& pitch > 0
        &&& 0 <= offset
        &&& offset / (pitch as int) == rows
        &&& (offset % (pitch as int)) / 4 < cols
    }
}

/// The buffer once the copy has finished `rows` rows and the first `cols`
/// cells of the next.
spec fn painted_partly(
    before: Seq<u8>,
    raster: Raster,
    width: u32,
    rows: int,
    cols: int,
    pitch: u32,
) -> Seq<u8> {
    Seq::new(
        before.len(),
        |offset: int|
            if is_written_partly(raster, width, rows, cols, pitch, offset) {
                written_byte(raster, pitch, offset)
            } else {
                before[offset]
            },
    )
}

/// Storing the four bytes of pixel `(x, y)` in its cell advances the partial
/// copy by one cell.
proof fn lemma_paint_cell(
    before: Seq<u8>,
    raster: Raster,
    width: u32,
    pitch: u32,
    x: int,
    y: int,
    current: Seq<u8>,
    next: Seq<u8>,
)
    requires
        0 <= x,
        0 <= y,
        4 * x + 4 <= pitch,
        cell_offset(pitch, x, y) + 4 <= before.len(),
        current == painted_partly(before, raster, width, y, x, pitch),
        next.len() == before.len(),
        forall|j: int|
            0 <= j < next.len() ==> next[j] == if cell_offset(pitch, x, y) <= j < cell_offset(
                pitch,
                x,
                y,
            ) + 4 {
                cell_byte(raster.pixel(x, y), j - cell_offset(pitch, x, y))
            } else {
                current[j]
            },
    ensures
        next == painted_partly(before, raster, width, y, x + 1, pitch),
{
    let at = cell_offset(pitch, x, y);
    let goal = painted_partly(before, raster, width, y, x + 1, pitch);
    assert forall|j: int| 0 <= j < next.len() implies next[j] == goal[j] by {
        if at <= j < at + 4 {
            lemma_cell_position(pitch, x, y, j - at);
        } else {
            if j / (pitch as int) == y && (j % (pitch as int)) / 4 == x {
                lemma_position_cell(pitch, j, x, y);
            }
        }
    }
    assert(next =~= goal);
}

/// A finished row of `cols` cells, where `cols` is the smaller of the two
/// widths, is a whole row of the copy.
proof fn lemma_row_done(
    before: Seq<u8>,
    raster: Raster,
    width: u32,
    pitch: u32,
    y: int,
    cols: int,
)
    requires
        0 <= y < raster.height,
        cols == if raster.width < width {
            raster.width as int
        } else {
            width as int
        },
    ensures
        painted_partly(before, raster, width, y, cols, pitch) == painted_rows(
            before,
            raster,
            width,
            y + 1,
            pitch,
        ),
        painted_partly(before, raster, width, y, 0, pitch) == painted_rows(
            before,
            raster,
            width,
            y,
            pitch,
        ),
{
    let a = painted_partly(before, raster, width, y, cols, pitch);
    let b = painted_rows(before, raster, width, y + 1, pitch);
    assert forall|j: int| 0 <= j < a.len() implies a[j] == b[j] by {
        if pitch > 0 {
            lemma_fundamental_div_mod(j, pitch as int);
            lemma_fundamental_div_mod(j % (pitch as int), 4);
        }
    }
    assert(a =~= b);
    let c = painted_partly(before, raster, width, y, 0, pitch);
    let d = painted_rows(before, raster, width, y, pitch);
    assert forall|j: int| 0 <= j < c.len() implies c[j] == d[j] by {
        if pitch > 0 {
            lemma_fundamental_div_mod(j, pitch as int);
            lemma_fundamental_div_mod(j % (pitch as int), 4);
        }
    }
    assert(c =~= d);
}

/// Rows that the picture does not have add nothing to the copy.
proof fn lemma_rows_clipped(
    before: Seq<u8>,
    raster: Raster,
    width: u32,
    pitch: u32,
    rows: int,
    more: int,
)
    requires
        raster.height <= rows <= more,
    ensures
        painted_rows(before, raster, width, rows, pitch) == painted_rows(
            before,
            raster,
            width,
            more,
            pitch,
        ),
{
    assert(painted_rows(before, raster, width, rows, pitch) =~= painted_rows(
        before,
        raster,
        width,
        more,
        pitch,
    ));
}

/// Copies `picture` into the mapped buffer.
///
/// The buffer has `width` by `height` cells in rows of `pitch` bytes. Pixels
/// in columns that the buffer does not have are skipped, and the copy ends
/// with the last row that the buffer has. Nothing outside the cells of the
/// copied pixels is touched.
pub fn write_pixels(
    picture: &Picture,
    width: u32,
    height: u32,
    pitch: u32,
    mapping: &mut [u8],
)
    requires
        layout_fits(width, height, pitch, old(mapping)@.len()),
    ensures
        final(mapping)@ == painted(old(mapping)@, picture@, width, height, pitch),
{
    let (picture_width, picture_height) = picture.dimensions();
    let cols: u32 = if picture_width < width {
        picture_width
    } else {
        width
    };
    let rows: u32 = if picture_height < height {
        picture_height
    } else {
        height
    };
    let ghost before = mapping@;
    let ghost raster = picture@;
    let len: usize = mapping.len();
    proof {
        assert(mapping@ =~= painted_rows(before, raster, width, 0, pitch));
    }
    let mut y: u32 = 0;
    while y < rows
        invariant
            y <= rows,
            rows <= height,
            rows <= raster.height,
            cols <= width,
            cols == if raster.width < width {
                raster.width as int
            } else {
                width as int
            },
            raster == picture@,
            layout_fits(width, height, pitch, before.len()),
            before.len() == len,
            mapping@.len() == before.len(),
            mapping@ == painted_rows(before, raster, width, y as int, pitch),
        decreases rows - y,
    {
        proof {
            lemma_row_done(before, raster, width, pitch, y as int, cols as int);
        }
        let mut x: u32 = 0;
        while x < cols
            invariant
                x <= cols,
                y < rows,
                rows <= height,
                rows <= raster.height,
                cols <= width,
                cols <= raster.width,
                raster == picture@,
                layout_fits(width, height, pitch, before.len()),
                before.len() == len,
                mapping@.len() == before.len(),
                mapping@ == painted_partly(before, raster, width, y as int, x as int, pitch),
            decreases cols - x,
        {
            let pixel = image_get_pixel(picture, x, y);
            proof {
                assert((y + 1) * pitch <= height * pitch) by (nonlinear_arith)
                    requires
                        y + 1 <= height,
                        pitch >= 0,
                ;
                assert((y + 1) * pitch == y * pitch + pitch) by (nonlinear_arith);
                assert(0 <= y * pitch) by (nonlinear_arith)
                    requires
                        y >= 0,
                        pitch >= 0,
                ;
            }
            let index: usize = x as usize * 4 + y as usize * pitch as usize;
            let ghost current = mapping@;
            mapping[index + 3] = pixel.alpha;
            mapping[index + 2] = pixel.red;
            mapping[index + 1] = pixel.green;
            mapping[index] = pixel.blue;
            proof {
                lemma_paint_cell(
                    before,
                    raster,
                    width,
                    pitch,
                    x as int,
                    y as int,
                    current,
                    mapping@,
                );
            }
            x += 1;
        }
        proof {
            lemma_row_done(before, raster, width, pitch, y as int, cols as int);
        }
        y += 1;
    }
    proof {
        if rows < height {
            lemma_rows_clipped(before, raster, width, pitch, rows as int, height as int);
        }
    }
}

} // verus!

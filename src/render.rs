use vstd::prelude::*;

verus! {

/// A terminal colour.
#[derive(Clone, Copy, Debug, PartialEq, Eq, Structural)]
pub struct Rgb {
    pub r: u8,
    pub g: u8,
    pub b: u8,
}

/// One half-block glyph: the upper pixel is the foreground, the lower one the
/// background; `None` is the terminal's default background, used below the
/// last row of an odd-height picture.
#[derive(Clone, Copy, Debug, PartialEq, Eq, Structural)]
pub struct Cell {
    pub top: Rgb,
    pub bottom: Option<Rgb>,
}

/// A row-major RGBA raster of `size` pixels holds exactly four bytes a pixel.
pub open spec fn raster_fits(len: int, size: (usize, usize)) -> bool {
    len == size.0 * size.1 * 4
}

/// The colour of the pixel at column `x`, row `y`; alpha is not shown.
pub open spec fn pixel(frame: Seq<u8>, width: int, x: int, y: int) -> Rgb {
    let i = (y * width + x) * 4;
    Rgb { r: frame[i], g: frame[i + 1], b: frame[i + 2] }
}

/// The colour at `pos`, or `None` for a row below the picture.
pub open spec fn color_at(frame: Seq<u8>, size: (usize, usize), pos: (usize, usize)) -> Option<
    Rgb,
> {
    if pos.1 >= size.1 {
        None
    } else {
        Some(pixel(frame, size.0 as int, pos.0 as int, pos.1 as int))
    }
}

/// The glyph for column `x` of glyph row `row`: pixel rows `2 * row` and
/// `2 * row + 1`.
pub open spec fn cell_at(frame: Seq<u8>, size: (usize, usize), x: int, row: int) -> Cell {
    Cell {
        top: pixel(frame, size.0 as int, x, 2 * row),
        bottom: color_at(frame, size, (x as usize, (2 * row + 1) as usize)),
    }
}

proof fn lemma_pixel_in_bounds(w: int, h: int, x: int, y: int)
    requires
        0 <= x < w,
        0 <= y < h,
    ensures
        0 <= y * w,
        y * w + x < w * h,
        (y * w + x) * 4 + 3 < w * h * 4,
{
    assert(0 <= y * w && y * w + x < w * h && (y * w + x) * 4 + 3 < w * h * 4) by (nonlinear_arith)
        requires
            0 <= x < w,
            0 <= y < h,
    ;
}

/// The colour of the pixel at `pos`; a row at or past the bottom gives `None`.
pub fn get_color(frame: &Vec<u8>, size: (usize, usize), pos: (usize, usize)) -> (r: Option<Rgb>)
    requires
        pos.1 < size.1 ==> frame@.len() >= size.0 * size.1 * 4 && pos.0 < size.0,
    ensures
        r == color_at(frame@, size, pos),
{
    if pos.1 >= size.1 {
        return None;
    }
    // The raster's length is a `usize`, so every index inside it fits one.
    let len: usize = frame.len();
    proof {
        lemma_pixel_in_bounds(size.0 as int, size.1 as int, pos.0 as int, pos.1 as int);
        assert((pos.1 * size.0 + pos.0) * 4 + 3 < len);
    }
    let idx: usize = (pos.1 * size.0 + pos.0) * 4;
    Some(Rgb { r: frame[idx], g: frame[idx + 1], b: frame[idx + 2] })
}

/// Lays a raster out as rows of half-block glyphs: `ceil(height / 2)` rows of
/// `width` glyphs each, glyph row `i` showing pixel rows `2i` and `2i + 1`.
pub fn half_block_rows(frame: &Vec<u8>, size: (usize, usize)) -> (rows: Vec<Vec<Cell>>)
    requires
        raster_fits(frame@.len() as int, size),
        size.0 > 0,
    ensures
        rows@.len() == (size.1 as int + 1) / 2,
        forall|i: int| 0 <= i < rows@.len() ==> (#[trigger] rows@[i])@.len() == size.0,
        forall|i: int, x: int|
            0 <= i < rows@.len() && 0 <= x < size.0 ==> #[trigger] rows@[i]@[x] == cell_at(
                frame@,
                size,
                x,
                i,
            ),
{
    let mut rows: Vec<Vec<Cell>> = Vec::new();
    let len: usize = frame.len();
    let mut y: usize = 0;
    assert(size.1 <= size.0 * size.1) by (nonlinear_arith)
        requires
            size.0 > 0,
    ;
    while y < size.1
        invariant
            raster_fits(frame@.len() as int, size),
            y % 2 == 0,
            y <= size.1 + 1,
            size.1 <= size.0 * size.1,
            frame@.len() == len,
            rows@.len() == y / 2,
            forall|i: int| 0 <= i < rows@.len() ==> (#[trigger] rows@[i])@.len() == size.0,
            forall|i: int, x: int|
                0 <= i < rows@.len() && 0 <= x < size.0 ==> #[trigger] rows@[i]@[x]
                    == cell_at(frame@, size, x, i),
        decreases size.1 + 1 - y,
    {
        let mut row: Vec<Cell> = Vec::new();
        let mut x: usize = 0;
        while x < size.0
            invariant
                raster_fits(frame@.len() as int, size),
                y < size.1,
                y % 2 == 0,
                x <= size.0,
                row@.len() == x,
                forall|j: int| 0 <= j < x ==> row@[j] == cell_at(frame@, size, j, y as int / 2),
            decreases size.0 - x,
        {
            let top = get_color(frame, size, (x, y));
            let bottom = get_color(frame, size, (x, y + 1));
            let top = match top {
                Some(c) => c,
                None => Rgb { r: 0, g: 0, b: 0 },
            };
            row.push(Cell { top, bottom });
            x = x + 1;
        }
        assert(2 * (y / 2) == y);
        rows.push(row);
        y = y + 2;
    }
    rows
}

} // verus!

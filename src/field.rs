use vstd::arithmetic::div_mod::lemma_fundamental_div_mod_converse;
use vstd::arithmetic::mul::lemma_mul_inequality;
use vstd::prelude::*;

verus! {

/// Which rows of an interlaced frame a planar frame holds.
#[derive(Clone, Copy, Debug, PartialEq, Eq, Structural)]
pub enum YiqField {
    /// The even-indexed rows.
    Upper,
    /// The odd-indexed rows.
    Lower,
    /// Every row.
    Both,
}

/// Number of rows that a planar frame of `field` holds for an image of `height` rows.
pub open spec fn field_height_spec(field: YiqField, height: int) -> int {
    match field {
        YiqField::Upper | YiqField::Lower => (height + 1) / 2,
        YiqField::Both => height,
    }
}

/// The image row that planar row `row` is taken from.
pub open spec fn source_row(field: YiqField, row: int) -> int {
    match field {
        YiqField::Upper => 2 * row,
        YiqField::Lower => 2 * row + 1,
        YiqField::Both => row,
    }
}

/// Sample `k` of the planar frame of `field` taken from `pixels`, an image of rows of
/// `stride` samples: the sample of the source row, or `fill` where that row lies past the
/// last one.
pub open spec fn field_sample<T>(pixels: Seq<T>, stride: int, height: int, field: YiqField, fill: T, k: int) -> T {
    let src = source_row(field, k / stride);
    if src < height {
        pixels[src * stride + k % stride]
    } else {
        fill
    }
}

/// Number of rows of the planar frame of `field` for an image of `height` rows.
pub fn field_height(field: YiqField, height: usize) -> (r: usize)
    ensures
        r == field_height_spec(field, height as int),
        r <= height,
{
    match field {
        YiqField::Upper | YiqField::Lower => height / 2 + height % 2,
        YiqField::Both => height,
    }
}

/// Number of rows of the image rebuilt from a planar frame of `field` with `planar_height` rows.
pub fn output_height(field: YiqField, planar_height: usize) -> (r: usize)
    requires
        field != YiqField::Both ==> planar_height <= usize::MAX / 2,
    ensures
        r == if field == YiqField::Both { planar_height as int } else { 2 * planar_height },
{
    match field {
        YiqField::Both => planar_height,
        YiqField::Upper | YiqField::Lower => 2 * planar_height,
    }
}

proof fn lemma_row_col(row: int, col: int, stride: int)
    requires
        0 <= row,
        0 <= col < stride,
    ensures
        (row * stride + col) / stride == row,
        (row * stride + col) % stride == col,
{
    lemma_fundamental_div_mod_converse(row * stride + col, stride, row, col);
}

/// Keeps the rows of `pixels` (an image of `height` rows of `stride` samples each) that
/// belong to `field`, in order. A row that the field asks for past the end of the image
/// is made of `fill`.
pub fn extract_field<T: Copy>(pixels: &Vec<T>, stride: usize, height: usize, field: YiqField, fill: T) -> (r: Vec<T>)
    requires
        pixels@.len() == stride * height,
    ensures
        r@.len() == stride * field_height_spec(field, height as int),
        forall|k: int| 0 <= k < r@.len() ==> #[trigger] r@[k] == field_sample(pixels@, stride as int, height as int, field, fill, k),
{
    let rows = field_height(field, height);
    proof {
        lemma_mul_inequality(rows as int, height as int, stride as int);
        assert(stride * rows <= stride * height) by (nonlinear_arith)
            requires rows <= height;
    }
    let mut out: Vec<T> = Vec::new();
    let mut row: usize = 0;
    while row < rows
        invariant
            0 <= row <= rows,
            rows == field_height_spec(field, height as int),
            rows <= height,
            stride * rows <= pixels@.len(),
            pixels@.len() == stride * height,
            out@.len() == row * stride,
            forall|k: int| 0 <= k < out@.len() ==> #[trigger] out@[k] == field_sample(pixels@, stride as int, height as int, field, fill, k),
        decreases rows - row,
    {
        let src: usize = match field {
            YiqField::Upper => 2 * row,
            YiqField::Lower => 2 * row + 1,
            YiqField::Both => row,
        };
        proof {
            assert(row * stride + stride <= rows * stride) by (nonlinear_arith)
                requires row < rows, stride >= 0;
            assert(stride * rows == rows * stride) by (nonlinear_arith);
        }
        let mut col: usize = 0;
        while col < stride
            invariant
                0 <= row < rows,
                0 <= col <= stride,
                src as int == source_row(field, row as int),
                rows == field_height_spec(field, height as int),
                row * stride + stride <= pixels@.len(),
                pixels@.len() == stride * height,
                out@.len() == row * stride + col,
                forall|k: int| 0 <= k < out@.len() ==> #[trigger] out@[k] == field_sample(pixels@, stride as int, height as int, field, fill, k),
            decreases stride - col,
        {
            let n = pixels.len();
            let v: T = if src < height {
                proof {
                    assert(src * stride + col < n) by (nonlinear_arith)
                        requires src < height, col < stride, n == stride * height;
                }
                pixels[src * stride + col]
            } else {
                fill
            };
            proof {
                lemma_row_col(row as int, col as int, stride as int);
            }
            out.push(v);
            col = col + 1;
        }
        proof {
            assert((row + 1) * stride == row * stride + stride) by (nonlinear_arith);
        }
        row = row + 1;
    }
    proof {
        assert(rows * stride == stride * rows) by (nonlinear_arith);
    }
    out
}

/// Where a row of a rebuilt image comes from.
#[derive(Clone, Copy, Debug, PartialEq, Eq, Structural)]
pub enum RowSource {
    /// A copy of this planar row.
    Copy(usize),
    /// The average of these two planar rows, the one above and the one below.
    Blend(usize, usize),
}

/// Where output row `row` of the image rebuilt from a planar frame of `field` with
/// `planar_height` rows comes from. Rows of the field the frame holds are copied; a row of
/// the other field is the average of its two neighbours, except the first and the last
/// row, which copy their nearest kept row.
pub open spec fn row_source_spec(field: YiqField, planar_height: int, row: int) -> RowSource {
    let out_height = if field == YiqField::Both { planar_height } else { 2 * planar_height };
    let other = match field {
        YiqField::Upper => row % 2 == 1,
        YiqField::Lower => row % 2 == 0,
        YiqField::Both => false,
    };
    if other && row != 0 && row != out_height - 1 {
        RowSource::Blend(((row - 1) / 2) as usize, ((row + 1) / 2) as usize)
    } else if field == YiqField::Both {
        RowSource::Copy(row as usize)
    } else {
        RowSource::Copy((row / 2) as usize)
    }
}

/// Chooses the planar rows that output row `row` of the rebuilt image is made from.
/// Every index it gives is a row of the planar frame.
pub fn row_source(field: YiqField, planar_height: usize, row: usize) -> (r: RowSource)
    requires
        field != YiqField::Both ==> planar_height <= usize::MAX / 2,
        row < if field == YiqField::Both { planar_height as int } else { 2 * planar_height },
    ensures
        r == row_source_spec(field, planar_height as int, row as int),
        match r {
            RowSource::Copy(a) => a < planar_height,
            RowSource::Blend(a, b) => a < planar_height && b < planar_height && a + 1 == b,
        },
{
    let out_height = output_height(field, planar_height);
    let other: bool = match field {
        YiqField::Upper => row % 2 == 1,
        YiqField::Lower => row % 2 == 0,
        YiqField::Both => false,
    };
    if other && row != 0 && row != out_height - 1 {
        RowSource::Blend((row - 1) / 2, (row + 1) / 2)
    } else if field == YiqField::Both {
        RowSource::Copy(row)
    } else {
        RowSource::Copy(row / 2)
    }
}

/// Number of rows, counted up from the bottom of a frame of `frame_height` rows, that a
/// head-switching band of `num_rows` rows starting `offset` rows into the band displaces.
/// A band whose offset reaches its height displaces nothing.
pub fn affected_rows(num_rows: usize, offset: usize, frame_height: usize) -> (r: usize)
    ensures
        r == if offset >= num_rows {
            0
        } else if num_rows - offset <= frame_height {
            num_rows - offset
        } else {
            frame_height as int
        },
        r <= frame_height,
{
    if offset >= num_rows {
        0
    } else if num_rows - offset <= frame_height {
        num_rows - offset
    } else {
        frame_height
    }
}

/// Index of the row `index` rows up from the bottom of a frame of `frame_height` rows.
pub fn bottom_row(frame_height: usize, index: usize) -> (r: usize)
    requires
        index < frame_height,
    ensures
        r == frame_height - 1 - index,
{
    frame_height - 1 - index
}

/// The image buffer does not hold `width * height` pixels of three samples each.
#[derive(Clone, Copy, Debug, PartialEq, Eq, Structural)]
pub struct InvalidInputError {
    pub width: usize,
    pub height: usize,
    pub len: usize,
}

/// Accepts a buffer of `len` samples as an RGB image of `width` by `height` pixels exactly
/// when it holds three samples for each pixel.
pub fn check_dimensions(width: usize, height: usize, len: usize) -> (r: Result<(), InvalidInputError>)
    ensures
        r is Ok <==> len == 3 * width * height,
        r is Err ==> r == Err::<(), _>(InvalidInputError { width, height, len }),
{
    let pixels: Option<usize> = width.checked_mul(height);
    let samples: Option<usize> = match pixels {
        Some(p) => {
            proof {
                assert(p * 3 == 3 * width * height) by (nonlinear_arith)
                    requires p == width * height;
            }
            p.checked_mul(3)
        },
        None => None,
    };
    match samples {
        Some(s) => if s == len {
            Ok(())
        } else {
            Err(InvalidInputError { width, height, len })
        },
        None => {
            proof {
                assert(3 * width * height > usize::MAX) by (nonlinear_arith)
                    requires width * height > usize::MAX || 3 * (width * height) > usize::MAX;
            }
            Err(InvalidInputError { width, height, len })
        },
    }
}

} // verus!

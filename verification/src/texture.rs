use vstd::prelude::*;
use crate::error::{Error, Issue};
use crate::graphics::Polygon;

verus! {

/// The texels of a texture, as the device takes them: four bytes for each
/// texel (red, green, blue, alpha), row after row, the bottom row first.
#[derive(Clone, Debug, PartialEq, Eq)]
pub struct Texture {
    pub width: u32,
    pub height: u32,
    pub data: Vec<u8>,
}

/// Row `r` of an image whose rows take `row_len` bytes each.
pub open spec fn row_of(data: Seq<u8>, row_len: int, r: int) -> Seq<u8> {
    data.subrange(r * row_len, (r + 1) * row_len)
}

/// The first `rows` rows of an image in reverse order: the last of them
/// first.
pub open spec fn rows_reversed(data: Seq<u8>, row_len: int, rows: int) -> Seq<u8>
    decreases rows,
{
    if rows <= 0 {
        Seq::empty()
    } else {
        row_of(data, row_len, rows - 1) + rows_reversed(data, row_len, rows - 1)
    }
}

/// The message of the error that `new_texture` gives where the number of
/// bytes does not fit the size of the image.
pub open spec fn bad_size_message() -> Seq<char> {
    "texel data does not match the image size"@
}

/// Rows of no bytes make an image of no bytes, in whatever order.
proof fn lemma_rows_reversed_empty(data: Seq<u8>, row_len: int, rows: int)
    requires
        row_len == 0 || rows <= 0,
    ensures
        rows_reversed(data, row_len, rows) == Seq::<u8>::empty(),
    decreases rows,
{
    if rows > 0 {
        lemma_rows_reversed_empty(data, row_len, rows - 1);
        assert((rows - 1) * 0 == 0 && rows * 0 == 0);
        assert(row_of(data, row_len, rows - 1) =~= Seq::<u8>::empty());
    }
}

/// Reversing the rows keeps the number of bytes.
pub proof fn lemma_rows_reversed_len(data: Seq<u8>, row_len: int, rows: int)
    requires
        0 <= row_len,
        0 <= rows,
        rows * row_len <= data.len(),
    ensures
        rows_reversed(data, row_len, rows).len() == rows * row_len,
    decreases rows,
{
    if rows > 0 {
        assert((rows - 1) * row_len + row_len == rows * row_len) by (nonlinear_arith);
        assert(0 <= (rows - 1) * row_len) by (nonlinear_arith)
            requires
                0 <= row_len,
                0 < rows,
        ;
        lemma_rows_reversed_len(data, row_len, rows - 1);
    } else {
        assert(rows * row_len == 0) by (nonlinear_arith)
            requires
                rows == 0,
        ;
    }
}

/// Reversing the rows moves byte `c` of row `r` to byte `c` of the row
/// that lies as far from the end as `r` lies from the start.
pub proof fn lemma_rows_reversed_index(data: Seq<u8>, row_len: int, rows: int, r: int, c: int)
    requires
        0 <= r < rows,
        0 <= c < row_len,
        rows * row_len <= data.len(),
    ensures
        0 <= (rows - 1 - r) * row_len + c < rows_reversed(data, row_len, rows).len(),
        rows_reversed(data, row_len, rows)[(rows - 1 - r) * row_len + c] == data[r * row_len + c],
    decreases rows,
{
    lemma_rows_reversed_len(data, row_len, rows);
    assert((rows - 1) * row_len + row_len == rows * row_len) by (nonlinear_arith);
    assert(0 <= (rows - 1) * row_len) by (nonlinear_arith)
        requires
            0 < rows,
            0 < row_len,
    ;
    assert(0 <= r * row_len && r * row_len + row_len <= rows * row_len) by (nonlinear_arith)
        requires
            0 <= r < rows,
            0 < row_len,
    ;
    let last = row_of(data, row_len, rows - 1);
    assert(last.len() == row_len);
    if r == rows - 1 {
        assert((rows - 1 - r) * row_len == 0) by (nonlinear_arith)
            requires
                r == rows - 1,
        ;
        assert(last[c] == data[(rows - 1) * row_len + c]);
    } else {
        lemma_rows_reversed_len(data, row_len, rows - 1);
        lemma_rows_reversed_index(data, row_len, rows - 1, r, c);
        assert((rows - 1 - r) * row_len == row_len + (rows - 2 - r) * row_len) by (nonlinear_arith);
        assert(0 <= (rows - 2 - r) * row_len) by (nonlinear_arith)
            requires
                r <= rows - 2,
                0 < row_len,
        ;
    }
}

/// Reversing the rows twice gives the image back.
pub proof fn lemma_rows_reversed_twice(data: Seq<u8>, row_len: int, rows: int)
    requires
        0 <= row_len,
        0 <= rows,
        data.len() == rows * row_len,
    ensures
        rows_reversed(rows_reversed(data, row_len, rows), row_len, rows) == data,
{
    let once = rows_reversed(data, row_len, rows);
    lemma_rows_reversed_len(data, row_len, rows);
    let twice = rows_reversed(once, row_len, rows);
    lemma_rows_reversed_len(once, row_len, rows);
    assert forall|p: int| 0 <= p < data.len() implies twice[p] == data[p] by {
        assert(row_len > 0) by (nonlinear_arith)
            requires
                0 <= row_len,
                0 < rows * row_len,
        ;
        let r = p / row_len;
        let c = p % row_len;
        assert(p == r * row_len + c && 0 <= c < row_len && 0 <= r < rows) by (nonlinear_arith)
            requires
                r == p / row_len,
                c == p % row_len,
                0 < row_len,
                0 <= p < rows * row_len,
        ;
        let back = rows - 1 - r;
        lemma_rows_reversed_index(once, row_len, rows, back, c);
        lemma_rows_reversed_index(data, row_len, rows, r, c);
        assert((rows - 1 - back) * row_len + c == p);
    }
    assert(twice =~= data);
}

impl Polygon {
    /// Prepares decoded texels for the device: `data` holds four bytes for
    /// each texel, row after row from the top, and the texture holds the
    /// same rows from the bottom.
    ///
    /// Fails, with the message `bad_size_message`, exactly when `data` does
    /// not hold four bytes for each of `width` times `height` texels.
    pub fn new_texture(data: &Vec<u8>, width: u32, height: u32) -> (r: Issue<Texture>)
        ensures
            r is Ok <==> data@.len() == 4 * width * height,
            r matches Ok(texture) ==> {
                &&& texture.width == width
                &&& texture.height == height
                &&& texture.data@ == rows_reversed(data@, 4 * width, height as int)
            },
            r matches Err(Error::UnknownError(message)) ==> message@ == bad_size_message(),
    {
        assert(width * height <= u64::MAX) by (nonlinear_arith)
            requires
                width <= u32::MAX,
                height <= u32::MAX,
        ;
        assert(4 * width * height == 4 * (width * height)) by (nonlinear_arith);
        let texels: u64 = (width as u64) * (height as u64);
        let len: u64 = data.len() as u64;
        if len % 4 != 0 || len / 4 != texels {
            return Err(Error::UnknownError("texel data does not match the image size".to_owned()));
        }
        let mut out: Vec<u8> = Vec::new();
        if data.len() == 0 {
            proof {
                assert(width == 0 || height == 0) by (nonlinear_arith)
                    requires
                        4 * width * height == 0,
                        0 <= width,
                        0 <= height,
                ;
                lemma_rows_reversed_empty(data@, 4 * width, height as int);
            }
            return Ok(Texture { width, height, data: out });
        }
        assert(height >= 1 && 4 * width <= data@.len()) by (nonlinear_arith)
            requires
                data@.len() == 4 * width * height,
                data@.len() > 0,
                0 <= width,
                0 <= height,
        ;
        let row_len: usize = 4 * (width as usize);
        let mut r: usize = height as usize;
        while r > 0
            invariant
                r <= height,
                row_len == 4 * width,
                data@.len() == row_len * height,
                data@.len() <= usize::MAX,
                out@ + rows_reversed(data@, row_len as int, r as int) == rows_reversed(
                    data@,
                    row_len as int,
                    height as int,
                ),
            decreases r,
        {
            r = r - 1;
            assert(0 <= r * row_len && r * row_len + row_len <= data@.len()) by (nonlinear_arith)
                requires
                    0 <= r,
                    r + 1 <= height,
                    data@.len() == row_len * height,
                    0 <= row_len,
            ;
            let start: usize = r * row_len;
            let ghost before = out@;
            let mut c: usize = 0;
            while c < row_len
                invariant
                    c <= row_len,
                    start + row_len <= data@.len(),
                    data@.len() <= usize::MAX,
                    out@ == before + data@.subrange(start as int, start + c),
                decreases row_len - c,
            {
                out.push(data[start + c]);
                proof {
                    assert(data@.subrange(start as int, start + c + 1) =~= data@.subrange(
                        start as int,
                        start + c,
                    ).push(data@[start + c]));
                }
                c = c + 1;
            }
            proof {
                assert((r + 1) * row_len == r * row_len + row_len) by (nonlinear_arith);
                assert(data@.subrange(start as int, start + row_len) == row_of(
                    data@,
                    row_len as int,
                    r as int,
                ));
                assert(out@ + rows_reversed(data@, row_len as int, r as int) =~= before + (row_of(
                    data@,
                    row_len as int,
                    r as int,
                ) + rows_reversed(data@, row_len as int, r as int)));
            }
        }
        proof {
            assert(out@ + Seq::<u8>::empty() =~= out@);
        }
        Ok(Texture { width, height, data: out })
    }
}

} // verus!

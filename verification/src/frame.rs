//! The interchange pixel layout and the frame converter that produces it.
//!
//! A converted frame is a top-down raster of 8-bit RGB pixels, three bytes
//! per pixel, with no padding between rows.  The converter takes the single
//! plane of a decoded RGB frame, whose rows may be padded to a stride wider
//! than the pixel data, and copies each row's pixel bytes into the tight
//! layout.

use vstd::prelude::*;

verus! {

/// A tight, row-major, top-down raster of 8-bit RGB pixels, three bytes
/// per pixel.
pub struct PixelBuffer {
    pub width: u32,
    pub height: u32,
    pub data: Vec<u8>,
}

impl PixelBuffer {
    /// The byte array holds exactly `width * height` pixels of three bytes.
    pub open spec fn wf(&self) -> bool {
        self.data@.len() == self.width as int * self.height as int * 3
    }
}

/// The tight destination holds, for each of the first `height` rows, the
/// first `width * 3` bytes of the corresponding strided source row.
pub open spec fn rows_copied(
    dst: Seq<u8>,
    src: Seq<u8>,
    width: int,
    height: int,
    stride: int,
) -> bool {
    forall|row: int, col: int|
        0 <= row < height && 0 <= col < width * 3 ==> #[trigger] dst[row * (width * 3) + col]
            == src[row * stride + col]
}

/// Converts one decoded frame plane into the interchange layout.
///
/// `raw` is the plane's bytes, `stride` the byte distance between the starts
/// of consecutive rows.  Succeeds exactly when the plane is large enough to
/// hold `height` rows of `width` RGB pixels at that stride; the result then
/// holds, row by row, the first `width * 3` bytes of each source row.
#[verifier::loop_isolation(false)]
pub fn convert_frame(width: u32, height: u32, stride: usize, raw: &Vec<u8>) -> (r: Option<
    PixelBuffer,
>)
    ensures
        r is Some <==> (width as int * 3 <= stride as int && height as int * stride as int
            <= raw@.len()),
        match r {
            Some(pb) => {
                &&& pb.width == width
                &&& pb.height == height
                &&& pb.wf()
                &&& rows_copied(pb.data@, raw@, width as int, height as int, stride as int)
            },
            None => true,
        },
{
    let w3_wide: u64 = (width as u64) * 3;
    if (stride as u64) < w3_wide {
        return None;
    }
    proof {
        assert((height as int) * (stride as int) < 0x1_0000_0000_0000_0000_0000_0000)
            by (nonlinear_arith)
            requires
                0 <= height as int,
                (height as int) < 0x1_0000_0000,
                0 <= stride as int,
                (stride as int) < 0x1_0000_0000_0000_0000,
        ;
    }
    let needed: u128 = (height as u128) * (stride as u128);
    if (raw.len() as u128) < needed {
        return None;
    }
    let row_bytes: usize = (width as usize) * 3;
    let mut data: Vec<u8> = Vec::new();
    let mut row: u32 = 0;
    while row < height
        invariant
            row <= height,
            data@.len() == row as int * (width as int * 3),
            rows_copied(data@, raw@, width as int, row as int, stride as int),
        decreases height - row,
    {
        let ghost w3: int = width as int * 3;
        let ghost s: int = stride as int;
        proof {
            assert((row as int + 1) * s <= height as int * s) by (nonlinear_arith)
                requires
                    row as int + 1 <= height as int,
                    s >= 0;
            assert(row as int * s + s == (row as int + 1) * s) by (nonlinear_arith);
            assert(row as int * w3 + w3 == (row as int + 1) * w3) by (nonlinear_arith);
        }
        let base: usize = (row as usize) * stride;
        let mut col: usize = 0;
        while col < row_bytes
            invariant
                col <= row_bytes,
                data@.len() == row as int * (width as int * 3) + col,
                rows_copied(data@, raw@, width as int, row as int, stride as int),
                forall|c: int|
                    0 <= c < col ==> #[trigger] data@[row as int * (width as int * 3) + c] == raw@[
                        row as int * stride as int + c],
            decreases row_bytes - col,
        {
            let b = raw[base + col];
            data.push(b);
            col = col + 1;
            proof {
                assert forall|r0: int, c: int|
                    0 <= r0 < row && 0 <= c < width as int * 3 implies #[trigger] data@[r0 * (
                width as int * 3) + c] == raw@[r0 * stride as int + c] by {
                    assert(r0 * (width as int * 3) + c < row as int * (width as int * 3))
                        by (nonlinear_arith)
                        requires
                            0 <= r0,
                            r0 + 1 <= row as int,
                            0 <= c,
                            c < width as int * 3,
                    ;
                }
            }
        }
        row = row + 1;
        assert(rows_copied(data@, raw@, width as int, row as int, stride as int)) by {
            assert forall|r0: int, c: int|
                0 <= r0 < row && 0 <= c < width as int * 3 implies #[trigger] data@[r0 * (
            width as int * 3) + c] == raw@[r0 * stride as int + c] by {
                if r0 == row as int - 1 {
                    assert(data@[r0 * (width as int * 3) + c] == raw@[r0 * stride as int + c]);
                }
            }
        }
    }
    proof {
        assert(height as int * (width as int * 3) == width as int * height as int * 3)
            by (nonlinear_arith);
    }
    Some(PixelBuffer { width, height, data })
}

} // verus!

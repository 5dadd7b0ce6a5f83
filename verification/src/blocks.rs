use vstd::prelude::*;

use crate::encoder::Dct2Jpeg;

verus! {

/// The samples of a grayscale image: `width` and `height` in pixels and
/// the raw bytes, which the encoder reads as `height`-long runs, one per
/// column `j` (sample (i, j) is `bytes[j * height + i]`).
pub struct ImagePixels {
    pub width: u32,
    pub height: u32,
    pub bytes: Vec<u8>,
}

/// Number of 8-pixel blocks that cover `n` pixels.
pub open spec fn blocks_across(n: int) -> int {
    if n % 8 == 0 {
        n / 8
    } else {
        n / 8 + 1
    }
}

/// The sample at (i, j), or 0 outside the image.
pub open spec fn sample_or_zero(bytes: Seq<u8>, width: int, height: int, i: int, j: int) -> u8 {
    if j >= width || i >= height {
        0
    } else {
        bytes[j * height + i]
    }
}

/// Entry (r, c) of block `k`: blocks are numbered row by row over a grid
/// with `blocks_across(width)` blocks per row, and block (m, n) of the grid
/// covers the samples (8m + r, 8n + c).
pub open spec fn block_sample(bytes: Seq<u8>, width: int, height: int, k: int, r: int, c: int) -> u8 {
    let across: int = blocks_across(width);
    sample_or_zero(bytes, width, height, 8 * (k / across) + r, 8 * (k % across) + c)
}

/// The image can be read: its height is not zero and its bytes hold
/// every sample.
pub open spec fn readable(img: &ImagePixels) -> bool {
    &&& img.height > 0
    &&& img.width * img.height <= img.bytes@.len()
}

proof fn lemma_sample_index(i: int, j: int, width: int, height: int)
    requires
        0 <= i < height,
        0 <= j < width,
    ensures
        0 <= j * height + i < width * height,
{
    assert(0 <= j * height + i < width * height) by (nonlinear_arith)
        requires
            0 <= i < height,
            0 <= j < width,
    ;
}

proof fn lemma_grid_index(m: int, n: int, across: int)
    requires
        0 <= n < across,
        0 <= m,
    ensures
        (m * across + n) / across == m,
        (m * across + n) % across == n,
        m * across + n + 1 <= (m + 1) * across,
{
    vstd::arithmetic::div_mod::lemma_fundamental_div_mod_converse(m * across + n, across, m, n);
    assert(m * across + n + 1 <= (m + 1) * across) by (nonlinear_arith)
        requires
            0 <= n < across,
    ;
}

/// Every sample of the image lands in exactly the block position that the
/// block layout gives it: sample (i, j) is entry (i % 8, j % 8) of block
/// (i / 8) * blocks_across(width) + j / 8, which is one of the blocks.
pub proof fn lemma_sample_in_block(bytes: Seq<u8>, width: int, height: int, i: int, j: int)
    requires
        0 <= i < height,
        0 <= j < width,
    ensures
        0 <= (i / 8) * blocks_across(width) + j / 8 < blocks_across(width) * blocks_across(height),
        block_sample(bytes, width, height, (i / 8) * blocks_across(width) + j / 8, i % 8, j % 8)
            == bytes[j * height + i],
{
    let across: int = blocks_across(width);
    let down: int = blocks_across(height);
    let m: int = i / 8;
    let n: int = j / 8;
    assert(0 <= n < across);
    assert(0 <= m < down);
    lemma_grid_index(m, n, across);
    assert(m * across + n < down * across) by (nonlinear_arith)
        requires
            0 <= m < down,
            0 <= n < across,
            m * across + n + 1 <= (m + 1) * across,
    ;
    assert(0 <= m * across) by (nonlinear_arith)
        requires
            0 <= m,
            0 <= across,
    ;
    assert(down * across == across * down) by (nonlinear_arith);
    assert(8 * m + i % 8 == i);
    assert(8 * n + j % 8 == j);
}

/// Enough blocks and no more: `blocks_across(n)` blocks of 8 cover `n`
/// samples, and one block fewer would not.
pub proof fn lemma_blocks_across_covers(n: int)
    requires
        n >= 0,
    ensures
        8 * blocks_across(n) >= n,
        8 * (blocks_across(n) - 1) < n || n == 0,
        n == 0 ==> blocks_across(n) == 0,
{
}

/// Entry (r, c) of block k is the sample at row 8 * (k / across) + r and
/// column 8 * (k % across) + c, read as `bytes[column * height + row]`, or 0
/// past the right or bottom edge.
pub proof fn lemma_block_sample_formula(
    bytes: Seq<u8>,
    width: int,
    height: int,
    k: int,
    r: int,
    c: int,
)
    ensures
        block_sample(bytes, width, height, k, r, c) == ({
            let across = if width % 8 == 0 {
                width / 8
            } else {
                width / 8 + 1
            };
            let row = 8 * (k / across) + r;
            let col = 8 * (k % across) + c;
            if col >= width || row >= height {
                0u8
            } else {
                bytes[col * height + row]
            }
        }),
{
}

impl Dct2Jpeg {
    /// How many blocks cover the image across (`width`) and down
    /// (`height`).
    pub fn block_counts(width: u32, height: u32) -> (counts: (usize, usize))
        ensures
            counts.0 == blocks_across(width as int),
            counts.1 == blocks_across(height as int),
    {
        let size: u32 = 8;
        let size_w: usize = if width % size == 0 {
            (width / size) as usize
        } else {
            ((width / size) + 1) as usize
        };
        let size_h: usize = if height % size == 0 {
            (height / size) as usize
        } else {
            ((height / size) + 1) as usize
        };
        (size_w, size_h)
    }

    /// Cuts the image into 8x8 blocks, row of blocks by row of blocks,
    /// filling with zeros where a block passes the edge of the image.
    pub fn split_image_block(img: &ImagePixels) -> (images_block: Vec<[[u8; 8]; 8]>)
        requires
            readable(img),
        ensures
            images_block@.len() == blocks_across(img.width as int) * blocks_across(
                img.height as int,
            ),
            forall|k: int, r: int, c: int|
                0 <= k < images_block@.len() && 0 <= r < 8 && 0 <= c < 8
                    ==> #[trigger] images_block@[k][r][c] == block_sample(
                    img.bytes@,
                    img.width as int,
                    img.height as int,
                    k,
                    r,
                    c,
                ),
    {
        let w: u64 = img.width as u64;
        let h: u64 = img.height as u64;
        let (size_w, size_h): (usize, usize) = Self::block_counts(img.width, img.height);
        let ghost bytes = img.bytes@;
        let mut images_block: Vec<[[u8; 8]; 8]> = Vec::new();
        let mut m: usize = 0;
        while m < size_h
            invariant
                readable(img),
                bytes == img.bytes@,
                w == img.width,
                h == img.height,
                size_w == blocks_across(w as int),
                size_h == blocks_across(h as int),
                m <= size_h,
                images_block@.len() == m * size_w,
                forall|k: int, r: int, c: int|
                    0 <= k < images_block@.len() && 0 <= r < 8 && 0 <= c < 8
                        ==> #[trigger] images_block@[k][r][c] == block_sample(
                        bytes,
                        w as int,
                        h as int,
                        k,
                        r,
                        c,
                    ),
            decreases size_h - m,
        {
            let block: u64 = (m as u64) * 8;
            let mut n: usize = 0;
            while n < size_w
                invariant
                    readable(img),
                    bytes == img.bytes@,
                    w == img.width,
                    h == img.height,
                    size_w == blocks_across(w as int),
                    size_h == blocks_across(h as int),
                    m < size_h,
                    block == m * 8,
                    n <= size_w,
                    images_block@.len() == m * size_w + n,
                    forall|k: int, r: int, c: int|
                        0 <= k < images_block@.len() && 0 <= r < 8 && 0 <= c < 8
                            ==> #[trigger] images_block@[k][r][c] == block_sample(
                            bytes,
                            w as int,
                            h as int,
                            k,
                            r,
                            c,
                        ),
                decreases size_w - n,
            {
                let block_h: u64 = (n as u64) * 8;
                let mut arr_split_8x8: [[u8; 8]; 8] = [[0; 8]; 8];
                let mut index_arr_split: usize = 0;
                while index_arr_split < 8
                    invariant
                        readable(img),
                        bytes == img.bytes@,
                        w == img.width,
                        h == img.height,
                        block == m * 8,
                        block_h == n * 8,
                        index_arr_split <= 8,
                        forall|r: int, c: int|
                            0 <= r < index_arr_split && 0 <= c < 8
                                ==> #[trigger] arr_split_8x8[r][c] == sample_or_zero(
                                bytes,
                                w as int,
                                h as int,
                                block + r,
                                block_h + c,
                            ),
                    decreases 8 - index_arr_split,
                {
                    let i: u64 = block + index_arr_split as u64;
                    let mut ele_arr: [u8; 8] = [0; 8];
                    let mut index_arr: usize = 0;
                    while index_arr < 8
                        invariant
                            readable(img),
                            bytes == img.bytes@,
                            w == img.width,
                            h == img.height,
                            block_h == n * 8,
                            index_arr <= 8,
                            forall|c: int|
                                0 <= c < index_arr ==> #[trigger] ele_arr[c] == sample_or_zero(
                                    bytes,
                                    w as int,
                                    h as int,
                                    i as int,
                                    block_h + c,
                                ),
                        decreases 8 - index_arr,
                    {
                        let j: u64 = block_h + index_arr as u64;
                        if j >= w || i >= h {
                            ele_arr[index_arr] = 0;
                        } else {
                            proof {
                                lemma_sample_index(i as int, j as int, w as int, h as int);
                                assert(w * h <= bytes.len());
                                assert(j * h + i < bytes.len());
                                assert(j * h <= j * h + i);
                                assert(img.bytes@.len() == img.bytes.len());
                            }
                            let index: u64 = j * h + i;
                            ele_arr[index_arr] = img.bytes[index as usize];
                        }
                        index_arr += 1;
                    }
                    arr_split_8x8[index_arr_split] = ele_arr;
                    index_arr_split += 1;
                }
                proof {
                    lemma_grid_index(m as int, n as int, size_w as int);
                }
                images_block.push(arr_split_8x8);
                n += 1;
            }
            proof {
                assert(m * size_w + size_w == (m + 1) * size_w) by (nonlinear_arith);
            }
            m += 1;
        }
        proof {
            assert(size_h * size_w == size_w * size_h) by (nonlinear_arith);
        }
        images_block
    }
}

} // verus!

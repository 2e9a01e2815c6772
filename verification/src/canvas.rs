use vstd::prelude::*;
use vstd::string::StringSliceAdditionalSpecFns;
use vstd::arithmetic::div_mod::{lemma_fundamental_div_mod, lemma_fundamental_div_mod_converse};
use vstd::arithmetic::mul::lemma_mul_inequality;
use crate::font::{FONT, FONT_X_SIZE, FONT_Y_SIZE, glyph_inked, glyph_of, glyph_scanline};
use crate::pool::{Pool, filled, grown, grown_size, written_run};

verus! {

/// Colour of pixel `k` (counted from the left edge of the text block) of scanline
/// `scanline` when `text` is printed with the given paper and ink.
pub open spec fn text_color(text: Seq<u8>, paper: u32, ink: u32, scanline: int, k: int) -> u32 {
    if glyph_inked(text[k / (FONT_X_SIZE as int)], scanline, k % (FONT_X_SIZE as int)) {
        ink
    } else {
        paper
    }
}

/// One scanline of printed text: `FONT_X_SIZE` pixels per byte of `text`.
pub open spec fn scanline_pixels(text: Seq<u8>, paper: u32, ink: u32, scanline: int) -> Seq<u32> {
    Seq::new(text.len() * (FONT_X_SIZE as nat), |k: int| text_color(text, paper, ink, scanline, k))
}

/// Distance, in pixels, between the starts of two scanlines of a printed block of `block`
/// pixels on a screen `xsize` pixels wide: the screen width, unless the block is wider.
pub open spec fn text_stride(xsize: int, block: int) -> int {
    if xsize > block {
        xsize
    } else {
        block
    }
}

/// `mem` after the first `n` scanlines of `text` are written, scanline `s` starting at
/// `pos + s * stride`.
pub open spec fn text_rows_written(
    mem: Seq<u32>,
    pos: int,
    stride: int,
    text: Seq<u8>,
    paper: u32,
    ink: u32,
    n: nat,
) -> Seq<u32>
    decreases n,
{
    if n == 0 {
        mem
    } else {
        written_run(
            text_rows_written(mem, pos, stride, text, paper, ink, (n - 1) as nat),
            pos + (n - 1) * stride,
            scanline_pixels(text, paper, ink, n - 1),
        )
    }
}

/// The pixels of one scanline of `text`.
pub fn scanline_row(text: &[u8], paper: u32, ink: u32, scanline: usize) -> (row: Vec<u32>)
    requires
        scanline < FONT_Y_SIZE,
        text@.len() * FONT_X_SIZE <= usize::MAX,
    ensures
        row@ == scanline_pixels(text@, paper, ink, scanline as int),
{
    let mut row: Vec<u32> = Vec::new();
    let mut j: usize = 0;
    while j < text.len()
        invariant
            scanline < FONT_Y_SIZE,
            j <= text@.len(),
            text@.len() * FONT_X_SIZE <= usize::MAX,
            row@ =~= scanline_pixels(text@, paper, ink, scanline as int).take(
                (j * FONT_X_SIZE) as int,
            ),
        decreases text@.len() - j,
    {
        let bitmap = glyph_scanline(text[j], scanline);
        let mut i: usize = 0;
        while i < FONT_X_SIZE
            invariant
                scanline < FONT_Y_SIZE,
                j < text@.len(),
                i <= FONT_X_SIZE,
                text@.len() * FONT_X_SIZE <= usize::MAX,
                bitmap == FONT@[glyph_of(text@[j as int]) * FONT_Y_SIZE + scanline],
                row@ =~= scanline_pixels(text@, paper, ink, scanline as int).take(
                    (j * FONT_X_SIZE + i) as int,
                ),
            decreases FONT_X_SIZE - i,
        {
            let color = if ((bitmap >> (i as u32)) & 1) == 0 {
                paper
            } else {
                ink
            };
            proof {
                let k = (j * FONT_X_SIZE + i) as int;
                lemma_fundamental_div_mod_converse(k, FONT_X_SIZE as int, j as int, i as int);
                assert(k < text@.len() * FONT_X_SIZE) by (nonlinear_arith)
                    requires
                        j < text@.len(),
                        i < FONT_X_SIZE,
                        k == j * FONT_X_SIZE + i,
                ;
            }
            row.push(color);
            i = i + 1;
        }
        j = j + 1;
    }
    row
}

/// Number of pixels of a screen `xsize` pixels wide and `ysize` high, by way of its size in
/// bytes.
pub fn pool_pixels(xsize: u32, ysize: u32) -> (n: usize)
    requires
        4 * xsize <= u32::MAX,
        4 * xsize * ysize <= u32::MAX,
    ensures
        n == xsize * ysize,
{
    let bytes: u32 = 4 * xsize * ysize;
    assert(bytes / 4 == xsize * ysize) by (nonlinear_arith)
        requires
            bytes == 4 * xsize * ysize,
    ;
    (bytes / 4) as usize
}

/// Prints `text` into the pool of a screen `xsize` pixels wide and `ysize` high: the pool is
/// grown to the whole screen, then each of the `FONT_Y_SIZE` scanlines of the glyphs is
/// written, the block starting at pixel `(x, y)`. A byte outside printable ASCII prints
/// as a question mark.
pub fn printstring(
    pool: &mut Pool,
    xsize: u32,
    ysize: u32,
    x: usize,
    y: usize,
    paper: u32,
    ink: u32,
    text: &str,
)
    requires
        old(pool).wf(),
        4 * xsize <= u32::MAX,
        4 * xsize * ysize <= u32::MAX,
        y * xsize + x <= usize::MAX,
        4 * (y * xsize + x) <= u64::MAX,
        4 * FONT_X_SIZE * text.spec_bytes().len() <= i64::MAX,
        y * xsize + x + 23 * text_stride(
            xsize as int,
            FONT_X_SIZE * text.spec_bytes().len(),
        ) + FONT_X_SIZE * text.spec_bytes().len() < usize::MAX,
    ensures
        final(pool).wf(),
        final(pool).size() == grown_size(old(pool).size(), (xsize * ysize) as nat),
        final(pool).content() == text_rows_written(
            grown(old(pool).content(), old(pool).size(), (xsize * ysize) as nat),
            y * xsize + x,
            text_stride(xsize as int, FONT_X_SIZE * text.spec_bytes().len()),
            text.spec_bytes(),
            paper,
            ink,
            FONT_Y_SIZE as nat,
        ),
{
    let screen_pixels = pool_pixels(xsize, ysize);
    pool.resize(screen_pixels);
    let bytes = text.as_bytes();
    let block = bytes.len() * FONT_X_SIZE;
    let stride = if (xsize as usize) > block {
        xsize as usize
    } else {
        block
    };
    let pos = y * (xsize as usize) + x;
    let ghost start = pool.content();
    let mut scanline: usize = 0;
    while scanline < FONT_Y_SIZE
        invariant
            pool.wf(),
            pool.size() == grown_size(old(pool).size(), (xsize * ysize) as nat),
            scanline <= FONT_Y_SIZE,
            bytes@ == text.spec_bytes(),
            block == bytes@.len() * FONT_X_SIZE,
            stride == text_stride(xsize as int, block as int),
            pos + 23 * stride + block < usize::MAX,
            pool.content() == text_rows_written(
                start,
                pos as int,
                stride as int,
                bytes@,
                paper,
                ink,
                scanline as nat,
            ),
        decreases FONT_Y_SIZE - scanline,
    {
        let row = scanline_row(bytes, paper, ink, scanline);
        proof {
            lemma_mul_inequality(scanline as int, 23, stride as int);
        }
        pool.write_run(pos + scanline * stride, &row);
        scanline = scanline + 1;
    }
}

/// Fills `reps` pixels with `color`, from pixel `(x, y)` of a screen `xsize` pixels wide
/// and `ysize` high on, after the pool is grown to the whole screen. The run continues on
/// the following rows when it passes the right edge.
pub fn pixfill(pool: &mut Pool, xsize: u32, ysize: u32, x: usize, y: usize, color: u32, reps: usize)
    requires
        old(pool).wf(),
        4 * xsize <= u32::MAX,
        4 * xsize * ysize <= u32::MAX,
        y * xsize + x <= usize::MAX,
        4 * (y * xsize + x) <= u64::MAX,
        y * xsize + x + reps < usize::MAX,
    ensures
        final(pool).wf(),
        final(pool).size() == grown_size(old(pool).size(), (xsize * ysize) as nat),
        final(pool).content() == filled(
            grown(old(pool).content(), old(pool).size(), (xsize * ysize) as nat),
            y * xsize + x,
            reps as int,
            color,
        ),
{
    let screen_pixels = pool_pixels(xsize, ysize);
    pool.resize(screen_pixels);
    let pos = y * (xsize as usize) + x;
    pool.fill(pos, reps, color);
}

/// Whether pixel `i` lies in the block of `n` scanlines of `block` pixels each written from
/// `pos` on, `stride` pixels apart.
pub open spec fn in_text_rows(i: int, pos: int, stride: int, block: int, n: int) -> bool {
    &&& pos <= i
    &&& (i - pos) / stride < n
    &&& (i - pos) % stride < block
}

/// Printed scanlines, pixel by pixel: a pixel of the block has the colour of its place in the
/// text, any other pixel keeps its colour (or reads zero past the old end).
pub proof fn lemma_text_rows_written(
    mem: Seq<u32>,
    pos: int,
    stride: int,
    text: Seq<u8>,
    paper: u32,
    ink: u32,
    n: nat,
)
    requires
        pos >= 0,
        text.len() > 0,
        stride >= text.len() * FONT_X_SIZE,
    ensures
        text_rows_written(mem, pos, stride, text, paper, ink, n).len() == if n > 0 && pos + (n - 1)
            * stride + text.len() * FONT_X_SIZE > mem.len() {
            pos + (n - 1) * stride + text.len() * FONT_X_SIZE
        } else {
            mem.len() as int
        },
        forall|i: int|
            0 <= i < text_rows_written(mem, pos, stride, text, paper, ink, n).len() ==> #[trigger]
            text_rows_written(mem, pos, stride, text, paper, ink, n)[i] == if in_text_rows(
                i,
                pos,
                stride,
                text.len() * FONT_X_SIZE,
                n as int,
            ) {
                text_color(text, paper, ink, (i - pos) / stride, (i - pos) % stride)
            } else if i < mem.len() {
                mem[i]
            } else {
                0u32
            },
    decreases n,
{
    let block = text.len() * FONT_X_SIZE;
    if n > 0 {
        let m = (n - 1) as nat;
        lemma_text_rows_written(mem, pos, stride, text, paper, ink, m);
        let prev = text_rows_written(mem, pos, stride, text, paper, ink, m);
        let start = pos + m * stride;
        let cur = text_rows_written(mem, pos, stride, text, paper, ink, n);
        assert(cur == written_run(prev, start, scanline_pixels(text, paper, ink, m as int)));
        if m > 0 {
            assert((m - 1) * stride + block <= m * stride + block) by (nonlinear_arith)
                requires
                    m > 0,
                    stride >= 0,
            ;
        }
        assert forall|i: int| 0 <= i < cur.len() implies #[trigger] cur[i] == if in_text_rows(
            i,
            pos,
            stride,
            block,
            n as int,
        ) {
            text_color(text, paper, ink, (i - pos) / stride, (i - pos) % stride)
        } else if i < mem.len() {
            mem[i]
        } else {
            0u32
        } by {
            if start <= i < start + block {
                lemma_fundamental_div_mod_converse(i - pos, stride, m as int, i - start);
                assert(cur[i] == scanline_pixels(text, paper, ink, m as int)[i - start]);
            } else {
                if pos <= i {
                    lemma_fundamental_div_mod(i - pos, stride);
                    let q = (i - pos) / stride;
                    let r = (i - pos) % stride;
                    if q == m as int && r < block {
                        assert(false) by (nonlinear_arith)
                            requires
                                i - pos == stride * q + r,
                                q == m,
                                start == pos + m * stride,
                                !(start <= i < start + block),
                                0 <= r < block,
                        ;
                    }
                    if q < m as int && r < block {
                        assert(i < pos + (m - 1) * stride + block) by (nonlinear_arith)
                            requires
                                i - pos == stride * q + r,
                                0 <= q < m,
                                0 <= r < block,
                                stride >= 0,
                        ;
                    }
                }
            }
        }
    }
}

} // verus!

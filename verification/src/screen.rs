use vstd::prelude::*;
use vstd::string::StringSliceAdditionalSpecFns;
use vstd::utf8::is_char_boundary;
use vstd::arithmetic::mul::{lemma_mul_inequality, lemma_mul_is_associative};
use vstd::arithmetic::div_mod::lemma_fundamental_div_mod;
use crate::font::{FONT_X_SIZE, FONT_Y_SIZE};
use crate::pool::{Pool, INITIAL_POOL_PIXELS, filled, grown, grown_size};
use crate::canvas::{printstring, pixfill, text_rows_written, text_stride, pool_pixels};
use crate::pixels::{encode_pixels, native_encoded};

verus! {

/// Alpha bits that make a colour opaque; every pixel the screen draws carries them.
pub const OPAQUE: u32 = 0xff000000;

/// Paper colour of a new screen.
pub const DEFAULT_PAPER: u32 = 0;

/// Ink colour of a new screen: green.
pub const DEFAULT_INK: u32 = 0x00ff00;

/// Whether a string of `len` bytes printed at `(x, y)` on a `width` x `height` screen is
/// drawn at all: it must be non-empty and a whole glyph cell must fit at `(x, y)`.
pub open spec fn print_fits(width: int, height: int, x: int, y: int, len: int) -> bool {
    &&& len > 0
    &&& x <= width - FONT_X_SIZE
    &&& y <= height - FONT_Y_SIZE
}

/// How many bytes of a `len`-byte string printed at column `x` are drawn: those whose
/// glyph cells fit between `x` and the right edge.
pub open spec fn print_chars(width: int, x: int, len: int) -> int {
    if len * FONT_X_SIZE > width - x {
        (width - x) / (FONT_X_SIZE as int)
    } else {
        len
    }
}

/// What a program draws on: a screen of `width` x `height` pixels with a paper and an ink
/// colour, whose pixels live in a shared-memory pool that persists between drawing calls.
pub struct Screen {
    width: u32,
    height: u32,
    paper_color: u32,
    ink_color: u32,
    pool: Pool,
}

impl Screen {
    /// Screen width in pixels.
    pub closed spec fn w(&self) -> u32 {
        self.width
    }

    /// Screen height in pixels.
    pub closed spec fn h(&self) -> u32 {
        self.height
    }

    /// The colour `cls` paints and `print` puts behind glyphs.
    pub closed spec fn paper_color(&self) -> u32 {
        self.paper_color
    }

    /// The colour `plot` paints and `print` draws glyphs with.
    pub closed spec fn ink_color(&self) -> u32 {
        self.ink_color
    }

    /// The pixel memory: row `r` of the screen is `content()[r * w() .. (r + 1) * w()]`.
    pub closed spec fn content(&self) -> Seq<u32> {
        self.pool.content()
    }

    /// Size of the pixel pool as announced to the compositor, in pixels.
    pub closed spec fn pool_size(&self) -> nat {
        self.pool.size()
    }

    /// The pixel memory always covers the announced pool size.
    pub closed spec fn wf(&self) -> bool {
        self.pool.wf()
    }

    /// Whether the drawing calls on this screen cannot overflow: its size in bytes fits a
    /// `u32`.
    pub open spec fn drawable(&self) -> bool {
        &&& 4 * self.w() <= u32::MAX
        &&& 4 * self.w() * self.h() <= u32::MAX
    }

    /// A new `width` x `height` screen: green ink on black paper, and a small pool of zero
    /// pixels.
    pub fn new(width: u32, height: u32) -> (s: Screen)
        ensures
            s.wf(),
            s.w() == width,
            s.h() == height,
            s.paper_color() == DEFAULT_PAPER,
            s.ink_color() == DEFAULT_INK,
            s.pool_size() == INITIAL_POOL_PIXELS,
            s.content() == Seq::new(INITIAL_POOL_PIXELS as nat, |i: int| 0u32),
    {
        Screen {
            width,
            height,
            paper_color: DEFAULT_PAPER,
            ink_color: DEFAULT_INK,
            pool: Pool::new(),
        }
    }

    /// The screen size, width first.
    pub fn dimensions(&self) -> (d: (u32, u32))
        ensures
            d == (self.w(), self.h()),
    {
        (self.width, self.height)
    }

    /// Takes a new screen size; the pixel memory is kept as it is.
    pub fn set_dimensions(&mut self, width: u32, height: u32)
        ensures
            final(self).w() == width,
            final(self).h() == height,
            final(self).paper_color() == old(self).paper_color(),
            final(self).ink_color() == old(self).ink_color(),
            final(self).content() == old(self).content(),
            final(self).pool_size() == old(self).pool_size(),
            final(self).wf() == old(self).wf(),
    {
        self.width = width;
        self.height = height;
    }

    /// Sets the paper colour (`0xRRGGBB`); nothing is drawn.
    pub fn paper(&mut self, color: u32)
        ensures
            final(self).paper_color() == color,
            final(self).ink_color() == old(self).ink_color(),
            final(self).w() == old(self).w(),
            final(self).h() == old(self).h(),
            final(self).content() == old(self).content(),
            final(self).pool_size() == old(self).pool_size(),
            final(self).wf() == old(self).wf(),
    {
        self.paper_color = color
    }

    /// Sets the ink colour (`0xRRGGBB`); nothing is drawn.
    pub fn ink(&mut self, color: u32)
        ensures
            final(self).ink_color() == color,
            final(self).paper_color() == old(self).paper_color(),
            final(self).w() == old(self).w(),
            final(self).h() == old(self).h(),
            final(self).content() == old(self).content(),
            final(self).pool_size() == old(self).pool_size(),
            final(self).wf() == old(self).wf(),
    {
        self.ink_color = color
    }

    /// Pixel `i` of the pixel memory.
    pub fn pixel(&self, i: usize) -> (v: u32)
        requires
            i < self.content().len(),
        ensures
            v == self.content()[i as int],
    {
        self.pool.pixel(i)
    }

    /// Number of pixels in the pixel memory.
    pub fn memory_len(&self) -> (n: usize)
        ensures
            n == self.content().len(),
    {
        self.pool.memory_len()
    }

    /// Paints `rept` pixels, opaque `color`, from `(x, y)` on, running on into the next rows.
    fn pixels(&mut self, x: usize, y: usize, color: u32, rept: usize)
        requires
            old(self).wf(),
            old(self).drawable(),
            y * old(self).w() + x <= usize::MAX,
            4 * (y * old(self).w() + x) <= u64::MAX,
            y * old(self).w() + x + rept < usize::MAX,
        ensures
            final(self).wf(),
            final(self).w() == old(self).w(),
            final(self).h() == old(self).h(),
            final(self).paper_color() == old(self).paper_color(),
            final(self).ink_color() == old(self).ink_color(),
            final(self).pool_size() == grown_size(
                old(self).pool_size(),
                (old(self).w() * old(self).h()) as nat,
            ),
            final(self).content() == filled(
                grown(
                    old(self).content(),
                    old(self).pool_size(),
                    (old(self).w() * old(self).h()) as nat,
                ),
                y * old(self).w() + x,
                rept as int,
                color | OPAQUE,
            ),
    {
        pixfill(&mut self.pool, self.width, self.height, x, y, color | OPAQUE, rept)
    }

    /// Clears the whole screen to the paper colour.
    pub fn cls(&mut self)
        requires
            old(self).wf(),
            old(self).drawable(),
        ensures
            final(self).wf(),
            final(self).w() == old(self).w(),
            final(self).h() == old(self).h(),
            final(self).paper_color() == old(self).paper_color(),
            final(self).ink_color() == old(self).ink_color(),
            final(self).pool_size() == grown_size(
                old(self).pool_size(),
                (old(self).w() * old(self).h()) as nat,
            ),
            final(self).content() == filled(
                grown(
                    old(self).content(),
                    old(self).pool_size(),
                    (old(self).w() * old(self).h()) as nat,
                ),
                0,
                old(self).w() * old(self).h(),
                old(self).paper_color() | OPAQUE,
            ),
    {
        let screensize = pool_pixels(self.width, self.height);
        let color = self.paper_color;
        assert(self.width * self.height <= u32::MAX / 4) by (nonlinear_arith)
            requires
                4 * self.width * self.height <= u32::MAX,
        ;
        assert(usize::MAX >= u32::MAX);
        assert(screensize <= u32::MAX / 4);
        assert(0 * self.width + 0 + screensize < usize::MAX);
        self.pixels(0, 0, color, screensize)
    }

    /// Paints the pixel at `(x, y)` with the ink colour. An `x` past the right edge runs on
    /// into the next row, as the pixel memory is laid out row after row.
    pub fn plot(&mut self, x: usize, y: usize)
        requires
            old(self).wf(),
            old(self).drawable(),
            y * old(self).w() + x + 1 < usize::MAX,
            4 * (y * old(self).w() + x) <= u64::MAX,
        ensures
            final(self).wf(),
            final(self).w() == old(self).w(),
            final(self).h() == old(self).h(),
            final(self).paper_color() == old(self).paper_color(),
            final(self).ink_color() == old(self).ink_color(),
            final(self).pool_size() == grown_size(
                old(self).pool_size(),
                (old(self).w() * old(self).h()) as nat,
            ),
            final(self).content() == filled(
                grown(
                    old(self).content(),
                    old(self).pool_size(),
                    (old(self).w() * old(self).h()) as nat,
                ),
                y * old(self).w() + x,
                1,
                old(self).ink_color() | OPAQUE,
            ),
    {
        let color = self.ink_color;
        self.pixels(x, y, color, 1)
    }

    /// Prints `s` with its top-left corner at `(x, y)`, ink on paper. Nothing is drawn for
    /// an empty string or where a glyph cell does not fit at `(x, y)`; otherwise the bytes
    /// whose cells fit before the right edge are drawn.
    pub fn print(&mut self, x: usize, y: usize, s: &str)
        requires
            old(self).wf(),
            s.spec_bytes().len() > 0 ==> old(self).w() >= FONT_X_SIZE,
            s.spec_bytes().len() > 0 && x <= old(self).w() - FONT_X_SIZE ==> old(self).h()
                >= FONT_Y_SIZE,
            print_fits(
                old(self).w() as int,
                old(self).h() as int,
                x as int,
                y as int,
                s.spec_bytes().len() as int,
            ) ==> {
                &&& old(self).drawable()
                &&& s.spec_bytes().len() * FONT_X_SIZE <= usize::MAX
                &&& is_char_boundary(
                    s.spec_bytes(),
                    print_chars(old(self).w() as int, x as int, s.spec_bytes().len() as int),
                )
            },
        ensures
            final(self).wf(),
            final(self).w() == old(self).w(),
            final(self).h() == old(self).h(),
            final(self).paper_color() == old(self).paper_color(),
            final(self).ink_color() == old(self).ink_color(),
            print_fits(
                old(self).w() as int,
                old(self).h() as int,
                x as int,
                y as int,
                s.spec_bytes().len() as int,
            ) ==> {
                &&& final(self).pool_size() == grown_size(
                    old(self).pool_size(),
                    (old(self).w() * old(self).h()) as nat,
                )
                &&& final(self).content() == text_rows_written(
                    grown(
                        old(self).content(),
                        old(self).pool_size(),
                        (old(self).w() * old(self).h()) as nat,
                    ),
                    y * old(self).w() + x,
                    old(self).w() as int,
                    s.spec_bytes().take(
                        print_chars(old(self).w() as int, x as int, s.spec_bytes().len() as int),
                    ),
                    old(self).paper_color() | OPAQUE,
                    old(self).ink_color() | OPAQUE,
                    FONT_Y_SIZE as nat,
                )
            },
            !print_fits(
                old(self).w() as int,
                old(self).h() as int,
                x as int,
                y as int,
                s.spec_bytes().len() as int,
            ) ==> final(self).content() == old(self).content() && final(self).pool_size()
                == old(self).pool_size(),
    {
        let len = s.len();
        let w = self.width as usize;
        if len > 0 && x <= w - FONT_X_SIZE && y <= self.height as usize - FONT_Y_SIZE {
            let chars = if len * FONT_X_SIZE > w - x {
                (w - x) / FONT_X_SIZE
            } else {
                len
            };
            proof {
                let hh = self.height as int;
                let ww = w as int;
                lemma_fundamental_div_mod((ww - x) as int, FONT_X_SIZE as int);
                assert(chars * FONT_X_SIZE <= ww - x);
                lemma_mul_inequality(y as int + FONT_Y_SIZE, hh, ww);
                assert((y + FONT_Y_SIZE) * ww == y * ww + FONT_Y_SIZE * ww) by (nonlinear_arith);
                assert(hh * ww <= u32::MAX / 4) by (nonlinear_arith)
                    requires
                        4 * ww * hh <= u32::MAX,
                ;
                assert(y * ww + x + 23 * ww + FONT_X_SIZE * chars <= hh * ww);
            }
            let (head, _) = s.split_at(chars);
            proof {
                assert(head.spec_bytes() =~= s.spec_bytes().take(chars as int));
                assert(text_stride(w as int, FONT_X_SIZE * chars) == w);
                assert(head.spec_bytes().len() == chars);
                let ww = w as int;
                assert(FONT_X_SIZE * chars <= ww);
                assert(ww <= u32::MAX);
                assert(4 * FONT_X_SIZE * chars <= i64::MAX);
                assert(y * self.width == y * ww);
                assert(y * ww + x + 23 * ww + FONT_X_SIZE * chars <= u32::MAX / 4);
                assert(4 * self.width * self.height <= u32::MAX);
                assert(y * self.width + x + 23 * text_stride(
                    self.width as int,
                    FONT_X_SIZE * head.spec_bytes().len(),
                ) + FONT_X_SIZE * head.spec_bytes().len() < usize::MAX);
            }
            let paper = self.paper_color | OPAQUE;
            let ink = self.ink_color | OPAQUE;
            printstring(&mut self.pool, self.width, self.height, x, y, paper, ink, head)
        }
    }

    /// The bytes of the visible screen, row after row, as the compositor reads them from
    /// the shared pool.
    pub fn frame_bytes(&self) -> (bytes: Vec<u8>)
        requires
            self.drawable(),
            self.content().len() >= self.w() * self.h(),
        ensures
            native_encoded(bytes@, self.content().take((self.w() * self.h()) as int)),
    {
        let n = pool_pixels(self.width, self.height);
        let mut visible: Vec<u32> = Vec::new();
        let mut k: usize = 0;
        while k < n
            invariant
                k <= n,
                n == self.w() * self.h(),
                self.content().len() >= n,
                visible@ == self.content().take(k as int),
            decreases n - k,
        {
            visible.push(self.pool.pixel(k));
            k = k + 1;
            assert(visible@ =~= self.content().take(k as int));
        }
        proof {
            lemma_mul_is_associative(4, self.width as int, self.height as int);
        }
        encode_pixels(visible.as_slice())
    }
}

} // verus!

use vstd::prelude::*;
use vstd::arithmetic::div_mod::{lemma_fundamental_div_mod, lemma_fundamental_div_mod_converse};
use crate::frame::{BORDER_SIZE, Location, UIButton};

verus! {

/// Which pixels of a 24 x 16 window button are painted: an oval.
pub const ALLOW_PIXEL: [[bool; 24]; 16] = [
    [
        false, false, false, false, false, false, false, false, true, true, true, true, true, true,
        true, true, false, false, false, false, false, false, false, false,
    ],
    [
        false, false, false, false, false, true, true, true, true, true, true, true, true, true,
        true, true, true, true, true, false, false, false, false, false,
    ],
    [
        false, false, false, true, true, true, true, true, true, true, true, true, true, true,
        true, true, true, true, true, true, true, false, false, false,
    ],
    [
        false, false, true, true, true, true, true, true, true, true, true, true, true, true, true,
        true, true, true, true, true, true, true, false, false,
    ],
    [
        false, true, true, true, true, true, true, true, true, true, true, true, true, true, true,
        true, true, true, true, true, true, true, true, false,
    ],
    [
        false, true, true, true, true, true, true, true, true, true, true, true, true, true, true,
        true, true, true, true, true, true, true, true, false,
    ],
    [
        true, true, true, true, true, true, true, true, true, true, true, true, true, true, true,
        true, true, true, true, true, true, true, true, true,
    ],
    [
        true, true, true, true, true, true, true, true, true, true, true, true, true, true, true,
        true, true, true, true, true, true, true, true, true,
    ],
    [
        true, true, true, true, true, true, true, true, true, true, true, true, true, true, true,
        true, true, true, true, true, true, true, true, true,
    ],
    [
        true, true, true, true, true, true, true, true, true, true, true, true, true, true, true,
        true, true, true, true, true, true, true, true, true,
    ],
    [
        false, true, true, true, true, true, true, true, true, true, true, true, true, true, true,
        true, true, true, true, true, true, true, true, false,
    ],
    [
        false, true, true, true, true, true, true, true, true, true, true, true, true, true, true,
        true, true, true, true, true, true, true, true, false,
    ],
    [
        false, false, true, true, true, true, true, true, true, true, true, true, true, true, true,
        true, true, true, true, true, true, true, false, false,
    ],
    [
        false, false, false, true, true, true, true, true, true, true, true, true, true, true,
        true, true, true, true, true, true, true, false, false, false,
    ],
    [
        false, false, false, false, false, true, true, true, true, true, true, true, true, true,
        true, true, true, true, true, false, false, false, false, false,
    ],
    [
        false, false, false, false, false, false, false, false, true, true, true, true, true, true,
        true, true, false, false, false, false, false, false, false, false,
    ],
];

/// Whether pixel `(r, c)` of a window button is painted.
pub fn allow_pixel(r: usize, c: usize) -> (b: bool)
    requires
        r < 16,
        c < 24,
    ensures
        b == ALLOW_PIXEL@[r as int]@[c as int],
{
    ALLOW_PIXEL[r][c]
}

/// Border colour of an inactive window.
pub const INACTIVE_BORDER: u32 = 0xFF606060;

/// Border colour of the active window.
pub const ACTIVE_BORDER: u32 = 0xFF000090;

pub const RED_BUTTON_REGULAR: u32 = 0xFFB04040;

pub const RED_BUTTON_HOVER: u32 = 0xFFFF4040;

pub const GREEN_BUTTON_REGULAR: u32 = 0xFF40B040;

pub const GREEN_BUTTON_HOVER: u32 = 0xFF40FF40;

pub const YELLOW_BUTTON_REGULAR: u32 = 0xFFB0B040;

pub const YELLOW_BUTTON_HOVER: u32 = 0xFFFFFF40;

pub const YELLOW_BUTTON_DISABLED: u32 = 0xFF808020;

/// Width of a title bar button, in pixels.
pub const BUTTON_WIDTH: u32 = 24;

/// Height of a title bar button, in pixels.
pub const BUTTON_HEIGHT: u32 = 16;

/// Distance from the right end of the title bar to the left edge of the close button.
pub const CLOSE_OFFSET: u32 = 24;

/// Distance from the right end of the title bar to the left edge of the maximize button.
pub const MAXIMIZE_OFFSET: u32 = 56;

/// Distance from the right end of the title bar to the left edge of the minimize button.
pub const MINIMIZE_OFFSET: u32 = 88;

/// Whether pixel `(row, col)` of the top part of a window `width` pixels wide (rows of
/// `width + 2 * BORDER_SIZE` pixels) is painted by the button whose left edge lies
/// `offset` pixels from the right end of the bar.
pub open spec fn in_button(width: int, offset: int, row: int, col: int) -> bool {
    let left = width + BORDER_SIZE - offset;
    &&& BORDER_SIZE <= row < BORDER_SIZE + BUTTON_HEIGHT
    &&& left <= col < left + BUTTON_WIDTH
    &&& ALLOW_PIXEL@[row - BORDER_SIZE]@[col - left]
}

/// Whether pixel `i` of the top part of a window `width` pixels wide lies on the button
/// `offset` pixels from the right end.
pub open spec fn on_button(width: int, offset: int, i: int) -> bool {
    in_button(
        width,
        offset,
        i / (width + 2 * BORDER_SIZE),
        i % (width + 2 * BORDER_SIZE),
    )
}

/// Whether some pointer is at `l`.
pub open spec fn hovered(mouses: Seq<Location>, l: Location) -> bool {
    exists|k: int| 0 <= k < mouses.len() && mouses[k] == l
}

/// Colour of the close button: lit while a pointer is on it.
pub open spec fn red_color(mouses: Seq<Location>) -> u32 {
    if hovered(mouses, Location::Button(UIButton::Close)) {
        RED_BUTTON_HOVER
    } else {
        RED_BUTTON_REGULAR
    }
}

/// Colour of the maximize button: greyed when the window cannot be maximized, else lit
/// while a pointer is on it.
pub open spec fn yellow_color(maximizable: bool, mouses: Seq<Location>) -> u32 {
    if !maximizable {
        YELLOW_BUTTON_DISABLED
    } else if hovered(mouses, Location::Button(UIButton::Maximize)) {
        YELLOW_BUTTON_HOVER
    } else {
        YELLOW_BUTTON_REGULAR
    }
}

/// Colour of the minimize button: lit while a pointer is on it.
pub open spec fn green_color(mouses: Seq<Location>) -> u32 {
    if hovered(mouses, Location::Button(UIButton::Minimize)) {
        GREEN_BUTTON_HOVER
    } else {
        GREEN_BUTTON_REGULAR
    }
}

/// The colour the buttons give pixel `i` of the top part of a window `width` pixels wide,
/// if any: a button is drawn only when the window is wide enough for it, close first, then
/// maximize, then minimize.
pub open spec fn button_pixel(width: int, maximizable: bool, mouses: Seq<Location>, i: int) -> Option<
    u32,
> {
    if width >= MINIMIZE_OFFSET && on_button(width, MINIMIZE_OFFSET as int, i) {
        Some(green_color(mouses))
    } else if width >= MAXIMIZE_OFFSET && on_button(width, MAXIMIZE_OFFSET as int, i) {
        Some(yellow_color(maximizable, mouses))
    } else if width >= CLOSE_OFFSET && on_button(width, CLOSE_OFFSET as int, i) {
        Some(red_color(mouses))
    } else {
        None
    }
}

/// The pixels of the top part `before` once the title bar buttons are drawn on them.
pub open spec fn buttons_drawn(
    before: Seq<u32>,
    width: int,
    maximizable: bool,
    mouses: Seq<Location>,
) -> Seq<u32> {
    Seq::new(
        before.len(),
        |i: int|
            match button_pixel(width, maximizable, mouses, i) {
                Some(c) => c,
                None => before[i],
            },
    )
}

/// Whether some pointer is at `l`.
pub fn any_at(mouses: &Vec<Location>, l: Location) -> (b: bool)
    ensures
        b == hovered(mouses@, l),
{
    let mut k: usize = 0;
    while k < mouses.len()
        invariant
            k <= mouses@.len(),
            forall|j: int| 0 <= j < k ==> mouses@[j] != l,
        decreases mouses@.len() - k,
    {
        if mouses[k] == l {
            return true;
        }
        k = k + 1;
    }
    false
}

/// Whether the pixel at row `row`, column `col` of the top part lies before cell `(r, c)`
/// of the button whose left edge is column `left`, in drawing order.
pub open spec fn drawn_before(row: int, col: int, left: int, r: int, c: int) -> bool {
    row - BORDER_SIZE < r || (row - BORDER_SIZE == r && col - left < c)
}

/// Paints one button: `color` on the oval cells of the 24 x 16 block whose top-left
/// pixel is row `BORDER_SIZE`, column `width + BORDER_SIZE - offset` of the top part.
pub fn draw_button(pixels: &mut Vec<u32>, width: u32, offset: u32, color: u32)
    requires
        CLOSE_OFFSET <= offset <= width,
        2 * width + 3 <= u32::MAX,
        old(pixels)@.len() >= (BORDER_SIZE + BUTTON_HEIGHT) * (width + 2 * BORDER_SIZE),
    ensures
        final(pixels)@.len() == old(pixels)@.len(),
        forall|i: int|
            0 <= i < final(pixels)@.len() ==> #[trigger] final(pixels)@[i] == if on_button(
                width as int,
                offset as int,
                i,
            ) {
                color
            } else {
                old(pixels)@[i]
            },
{
    let ds = BORDER_SIZE;
    let stride = (width + 2 * ds) as usize;
    let left = (width + ds - offset) as usize;
    let start = ((width + 2 * ds) * ds + width + ds - offset) as usize;
    let ghost before = pixels@;
    let ghost s = stride as int;
    let n = pixels.len();
    let mut r: usize = 0;
    while r < 16
        invariant
            CLOSE_OFFSET <= offset <= width,
            stride == width + 2 * BORDER_SIZE,
            s == stride as int,
            left == width + BORDER_SIZE - offset,
            start == stride + left,
            r <= 16,
            pixels@.len() == before.len(),
            n == before.len(),
            before.len() >= (BORDER_SIZE + BUTTON_HEIGHT) * stride,
            forall|i: int|
                0 <= i < pixels@.len() ==> #[trigger] pixels@[i] == if on_button(
                    width as int,
                    offset as int,
                    i,
                ) && drawn_before(i / s, i % s, left as int, r as int, 0) {
                    color
                } else {
                    before[i]
                },
        decreases 16 - r,
    {
        let mut c: usize = 0;
        while c < 24
            invariant
                CLOSE_OFFSET <= offset <= width,
                stride == width + 2 * BORDER_SIZE,
                s == stride as int,
                left == width + BORDER_SIZE - offset,
                start == stride + left,
                r < 16,
                c <= 24,
                pixels@.len() == before.len(),
                n == before.len(),
                before.len() >= (BORDER_SIZE + BUTTON_HEIGHT) * stride,
                forall|i: int|
                    0 <= i < pixels@.len() ==> #[trigger] pixels@[i] == if on_button(
                        width as int,
                        offset as int,
                        i,
                    ) && drawn_before(i / s, i % s, left as int, r as int, c as int) {
                        color
                    } else {
                        before[i]
                    },
            decreases 24 - c,
        {
            proof {
                assert(start + r * stride + c == (r + 1) * s + (left + c) && (r + 1) * s + (left
                    + c) < (BORDER_SIZE + BUTTON_HEIGHT) * s && r * stride <= 16 * s)
                    by (nonlinear_arith)
                    requires
                        start == stride + left,
                        s == stride,
                        r < 16,
                        c < 24,
                        left + 24 <= s,
                ;
            }
            let p = start + r * stride + c;
            proof {
                lemma_fundamental_div_mod_converse(p as int, s, (r + 1) as int, (left + c) as int);
                assert(p < (BORDER_SIZE + BUTTON_HEIGHT) * s) by (nonlinear_arith)
                    requires
                        p == (r + 1) * s + (left + c),
                        r < 16,
                        left + c < s,
                ;
                assert forall|i: int| 0 <= i < pixels@.len() && i != p implies !(#[trigger] (i / s) == r + 1
                    && i % s == left + c) by {
                    lemma_fundamental_div_mod(i, s);
                    if i / s == r + 1 && i % s == left + c {
                        assert(i == (r + 1) * s + (left + c)) by (nonlinear_arith)
                            requires
                                i == s * (i / s) + (i % s),
                                i / s == r + 1,
                                i % s == left + c,
                        ;
                    }
                }
            }
            if ALLOW_PIXEL[r][c] {
                pixels.set(p, color);
            }
            c = c + 1;
        }
        assert forall|i: int| 0 <= i < pixels@.len() implies #[trigger] pixels@[i] == if on_button(
            width as int,
            offset as int,
            i,
        ) && drawn_before(i / s, i % s, left as int, (r + 1) as int, 0) {
            color
        } else {
            before[i]
        } by {
            if on_button(width as int, offset as int, i) {
                assert(drawn_before(i / s, i % s, left as int, r as int, 24) == drawn_before(
                    i / s,
                    i % s,
                    left as int,
                    (r + 1) as int,
                    0,
                ));
            }
        }
        r = r + 1;
    }
}

/// Paints the title bar buttons into the pixels of the top part of a window `width`
/// pixels wide: close (red), maximize (yellow, greyed unless `maximizable`) and minimize
/// (green), as many as the width allows, each lit while one of the pointers in `mouses`
/// is on it.
pub fn draw_buttons(pixels: &mut Vec<u32>, width: u32, maximizable: bool, mouses: Vec<Location>)
    requires
        width >= CLOSE_OFFSET ==> 2 * width + 3 <= u32::MAX && old(pixels)@.len() >= (
        BORDER_SIZE + BUTTON_HEIGHT) * (width + 2 * BORDER_SIZE),
    ensures
        final(pixels)@ == buttons_drawn(old(pixels)@, width as int, maximizable, mouses@),
        final(pixels)@.len() == old(pixels)@.len(),
        forall|i: int|
            0 <= i < final(pixels)@.len() ==> #[trigger] final(pixels)@[i] == match button_pixel(
                width as int,
                maximizable,
                mouses@,
                i,
            ) {
                Some(c) => c,
                None => old(pixels)@[i],
            },
{
    let ghost before = pixels@;
    if width >= CLOSE_OFFSET {
        // draw the red button
        let color = if any_at(&mouses, Location::Button(UIButton::Close)) {
            RED_BUTTON_HOVER
        } else {
            RED_BUTTON_REGULAR
        };
        draw_button(pixels, width, CLOSE_OFFSET, color);
    }
    if width >= MAXIMIZE_OFFSET {
        // draw the yellow button
        let color = if !maximizable {
            YELLOW_BUTTON_DISABLED
        } else if any_at(&mouses, Location::Button(UIButton::Maximize)) {
            YELLOW_BUTTON_HOVER
        } else {
            YELLOW_BUTTON_REGULAR
        };
        draw_button(pixels, width, MAXIMIZE_OFFSET, color);
    }
    if width >= MINIMIZE_OFFSET {
        // draw the green button
        let color = if any_at(&mouses, Location::Button(UIButton::Minimize)) {
            GREEN_BUTTON_HOVER
        } else {
            GREEN_BUTTON_REGULAR
        };
        draw_button(pixels, width, MINIMIZE_OFFSET, color);
    }
    assert(pixels@ =~= buttons_drawn(before, width as int, maximizable, mouses@));
}

} // verus!

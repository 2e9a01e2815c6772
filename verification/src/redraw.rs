use vstd::prelude::*;
use crate::frame::{BORDER_SIZE, HEADER_SIZE, FrameState, Location};
use crate::buttons::{ACTIVE_BORDER, INACTIVE_BORDER, button_pixel, draw_buttons};

verus! {

/// Number of pixels of the four decoration parts of a `width` x `height` window: the top
/// part (title bar and top border, `HEADER_SIZE` rows), the bottom border row, and the
/// left and right border columns, all of them stored one after the other.
pub open spec fn border_pixel_count_spec(width: int, height: int) -> int {
    2 * height * BORDER_SIZE + (width + 2 * BORDER_SIZE) * (BORDER_SIZE + HEADER_SIZE)
}

/// Whether `v` is an `i32` value.
pub open spec fn i32_fits(v: int) -> bool {
    i32::MIN <= v <= i32::MAX
}

/// Whether redrawing the decorations of a `width` x `height` window stays clear of
/// arithmetic overflow: the pixel count and its byte size, and the byte offsets and strides
/// of the four parts as the compositor takes them (`i32`).
pub open spec fn redraw_fits(width: u32, height: u32) -> bool {
    let outer = width + 2 * BORDER_SIZE;
    &&& border_pixel_count_spec(width as int, height as int) <= u32::MAX
    &&& 4 * border_pixel_count_spec(width as int, height as int) <= usize::MAX
    &&& i32_fits(4 * (outer as i32))
    &&& i32_fits(4 * ((HEADER_SIZE * outer) as i32))
    &&& i32_fits(4 * (((HEADER_SIZE + BORDER_SIZE) * outer) as i32))
    &&& i32_fits(4 * (((HEADER_SIZE + BORDER_SIZE) * outer + BORDER_SIZE * height) as i32))
}

/// Where one decoration part takes its pixels from in the shared pool (`offset` and
/// `stride` in bytes, size in pixels) and where it sits relative to the window content.
#[derive(Debug, Copy, Clone, PartialEq, Eq, Structural)]
pub struct PartGeometry {
    pub offset: i32,
    pub width: i32,
    pub height: i32,
    pub stride: i32,
    pub x: i32,
    pub y: i32,
}

/// The geometry of the four decoration parts.
#[derive(Debug, Copy, Clone, PartialEq, Eq, Structural)]
pub struct BorderLayout {
    pub top: PartGeometry,
    pub bottom: PartGeometry,
    pub left: PartGeometry,
    pub right: PartGeometry,
}

/// The geometry of the decorations of a `width` x `height` window: the top part is
/// `width + 2` pixels wide and `HEADER_SIZE` high above the content, the bottom part one
/// row below it, the side parts one column each beside it; their pixels follow one another
/// in the pool in that order.
pub open spec fn border_layout_spec(width: u32, height: u32) -> BorderLayout {
    let outer = width + 2 * BORDER_SIZE;
    BorderLayout {
        top: PartGeometry {
            offset: 0,
            width: outer as i32,
            height: HEADER_SIZE as i32,
            stride: (4 * (outer as i32)) as i32,
            x: -1i32,
            y: -18i32,
        },
        bottom: PartGeometry {
            offset: (4 * ((HEADER_SIZE * outer) as i32)) as i32,
            width: outer as i32,
            height: BORDER_SIZE as i32,
            stride: (4 * (outer as i32)) as i32,
            x: -1i32,
            y: height as i32,
        },
        left: PartGeometry {
            offset: (4 * (((HEADER_SIZE + BORDER_SIZE) * outer) as i32)) as i32,
            width: BORDER_SIZE as i32,
            height: height as i32,
            stride: (4 * (BORDER_SIZE as i32)) as i32,
            x: -1i32,
            y: 0,
        },
        right: PartGeometry {
            offset: (4 * (((HEADER_SIZE + BORDER_SIZE) * outer + BORDER_SIZE * height) as i32)) as i32,
            width: BORDER_SIZE as i32,
            height: height as i32,
            stride: (4 * (BORDER_SIZE as i32)) as i32,
            x: width as i32,
            y: 0,
        },
    }
}

/// Number of pixels of the four decoration parts of a `width` x `height` window.
pub fn border_pixel_count(width: u32, height: u32) -> (n: u32)
    requires
        border_pixel_count_spec(width as int, height as int) <= u32::MAX,
    ensures
        n == border_pixel_count_spec(width as int, height as int),
{
    2 * height * BORDER_SIZE + (width + 2 * BORDER_SIZE) * (BORDER_SIZE + HEADER_SIZE)
}

/// The geometry of the decorations of a `width` x `height` window.
pub fn border_layout(width: u32, height: u32) -> (l: BorderLayout)
    requires
        redraw_fits(width, height),
    ensures
        l == border_layout_spec(width, height),
{
    let outer = width + 2 * BORDER_SIZE;
    BorderLayout {
        top: PartGeometry {
            offset: 0,
            width: outer as i32,
            height: HEADER_SIZE as i32,
            stride: 4 * (outer as i32),
            x: -(BORDER_SIZE as i32),
            y: -(HEADER_SIZE as i32),
        },
        bottom: PartGeometry {
            offset: 4 * ((HEADER_SIZE * outer) as i32),
            width: outer as i32,
            height: BORDER_SIZE as i32,
            stride: 4 * (outer as i32),
            x: -(BORDER_SIZE as i32),
            y: height as i32,
        },
        left: PartGeometry {
            offset: 4 * (((HEADER_SIZE + BORDER_SIZE) * outer) as i32),
            width: BORDER_SIZE as i32,
            height: height as i32,
            stride: 4 * (BORDER_SIZE as i32),
            x: -(BORDER_SIZE as i32),
            y: 0,
        },
        right: PartGeometry {
            offset: 4 * (((HEADER_SIZE + BORDER_SIZE) * outer + BORDER_SIZE * height) as i32),
            width: BORDER_SIZE as i32,
            height: height as i32,
            stride: 4 * (BORDER_SIZE as i32),
            x: width as i32,
            y: 0,
        },
    }
}

/// Border colour of an active or inactive window.
pub open spec fn border_color(active: bool) -> u32 {
    if active {
        ACTIVE_BORDER
    } else {
        INACTIVE_BORDER
    }
}

/// The pixels of the decorations of a `width` x `height` window: all in the border colour,
/// then the title bar buttons (the maximize button enabled) on the top part.
pub fn border_pixels(width: u32, height: u32, active: bool, mouses: Vec<Location>) -> (px: Vec<
    u32,
>)
    requires
        redraw_fits(width, height),
    ensures
        px@.len() == border_pixel_count_spec(width as int, height as int),
        forall|i: int|
            0 <= i < px@.len() ==> #[trigger] px@[i] == match button_pixel(
                width as int,
                true,
                mouses@,
                i,
            ) {
                Some(c) => c,
                None => border_color(active),
            },
{
    let pxcount = border_pixel_count(width, height);
    let color = if active {
        ACTIVE_BORDER
    } else {
        INACTIVE_BORDER
    };
    let mut px: Vec<u32> = Vec::new();
    let mut k: u32 = 0;
    while k < pxcount
        invariant
            k <= pxcount,
            px@ == Seq::new(k as nat, |i: int| color),
        decreases pxcount - k,
    {
        px.push(color);
        k = k + 1;
    }
    draw_buttons(&mut px, width, true, mouses);
    px
}

/// What redrawing the decorations paints: their pixels and where the four parts go.
pub struct BorderImage {
    pub pixels: Vec<u32>,
    pub layout: BorderLayout,
}

/// What redrawing the decorations in state `frame` paints, with pointers at `mouses`;
/// nothing when they are hidden (the parts are then emptied).
pub fn redraw(frame: &FrameState, mouses: Vec<Location>) -> (img: Option<BorderImage>)
    requires
        !frame.hidden ==> redraw_fits(frame.size.0, frame.size.1),
    ensures
        frame.hidden <==> img is None,
        img matches Some(b) ==> {
            &&& b.layout == border_layout_spec(frame.size.0, frame.size.1)
            &&& b.pixels@.len() == border_pixel_count_spec(
                frame.size.0 as int,
                frame.size.1 as int,
            )
            &&& forall|i: int|
                0 <= i < b.pixels@.len() ==> #[trigger] b.pixels@[i] == match button_pixel(
                    frame.size.0 as int,
                    true,
                    mouses@,
                    i,
                ) {
                    Some(c) => c,
                    None => border_color(frame.active),
                }
        },
{
    if frame.hidden {
        return None;
    }
    let (width, height) = frame.size;
    let pixels = border_pixels(width, height, frame.active, mouses);
    let layout = border_layout(width, height);
    Some(BorderImage { pixels, layout })
}

} // verus!

use vstd::prelude::*;
use vstd::arithmetic::div_mod::{lemma_fundamental_div_mod, lemma_fundamental_div_mod_converse};
use vstd::arithmetic::mul::{lemma_mul_inequality, lemma_mul_is_distributive_add_other_way};
use crate::font::{FONT_X_SIZE, FONT_Y_SIZE, glyph_inked, glyph_of};
use crate::pool::{filled, grown};
use crate::canvas::{text_rows_written, text_color, text_stride, scanline_pixels, lemma_text_rows_written};
use crate::frame::{
    BORDER_SIZE, HEADER_SIZE, FIXED_UNIT, Location, UIButton, FrameState, precise_location_spec,
    Edge, FrameAction, PointerState, PointerInput, pointer_next, pointer_reaction,
    request_for_location_spec,
    set_active_spec, set_maximized_spec, with_borders, without_borders,
};
use crate::buttons::{
    in_button, on_button, buttons_drawn, hovered, CLOSE_OFFSET, MAXIMIZE_OFFSET, MINIMIZE_OFFSET,
};
use crate::screen::{print_fits, print_chars};
use crate::redraw::{border_layout_spec, border_pixel_count_spec, redraw_fits};
use crate::events::{WindowEvent, replaces, window_reaction_spec, Way, after_window_events};

verus! {

/// Plotting paints exactly the addressed pixel: it gets the colour, and every other pixel
/// of the screen keeps the colour it had.
pub proof fn law_plot_paints_one_pixel(
    before: Seq<u32>,
    size: nat,
    w: u32,
    h: u32,
    x: int,
    y: int,
    color: u32,
)
    requires
        before.len() >= size,
        0 <= x,
        0 <= y,
        y * w + x < w * h,
    ensures
        ({
            let after = filled(grown(before, size, (w * h) as nat), y * w + x, 1, color);
            &&& after.len() >= w * h
            &&& after[y * w + x] == color
            &&& forall|i: int|
                0 <= i < before.len() && i < w * h && i != y * w + x ==> #[trigger] after[i]
                    == before[i]
        }),
{
    assert(0 <= y * w) by (nonlinear_arith)
        requires
            0 <= y,
    ;
}

/// Clearing paints every pixel of the screen with the same colour.
pub proof fn law_cls_paints_every_pixel(before: Seq<u32>, size: nat, w: u32, h: u32, color: u32)
    requires
        before.len() >= size,
    ensures
        ({
            let after = filled(grown(before, size, (w * h) as nat), 0, w * h, color);
            &&& after.len() >= w * h
            &&& forall|i: int| 0 <= i < w * h ==> #[trigger] after[i] == color
        }),
{
}

/// A byte outside printable ASCII prints as a question mark.
pub proof fn law_unprintable_bytes_print_as_question_mark(c: u8)
    requires
        c < 32 || c > 127,
    ensures
        glyph_of(c) == glyph_of(63u8),
{
}

/// Printing `text` at `(x, y)`, where its cells fit on the screen, draws each glyph cell
/// in place: pixel `(x + j * FONT_X_SIZE + b, y + s)` shows column `b` of scanline `s` of the
/// glyph of byte `j`, ink where it is inked and paper elsewhere; every pixel of the screen
/// outside those cells keeps its colour.
pub proof fn law_print_draws_glyph_cells(
    before: Seq<u32>,
    size: nat,
    w: u32,
    h: u32,
    x: int,
    y: int,
    text: Seq<u8>,
    paper: u32,
    ink: u32,
)
    requires
        before.len() >= size,
        0 <= x,
        0 <= y,
        text.len() > 0,
        x + text.len() * FONT_X_SIZE <= w,
        y + FONT_Y_SIZE <= h,
    ensures
        ({
            let after = text_rows_written(
                grown(before, size, (w * h) as nat),
                y * w + x,
                w as int,
                text,
                paper,
                ink,
                FONT_Y_SIZE as nat,
            );
            &&& after.len() >= w * h
            &&& forall|s: int, j: int, b: int|
                0 <= s < FONT_Y_SIZE && 0 <= j < text.len() && 0 <= b < FONT_X_SIZE
                    ==> #[trigger] after[(y + s) * w + x + j * FONT_X_SIZE + b] == if glyph_inked(
                    text[j],
                    s,
                    b,
                ) {
                    ink
                } else {
                    paper
                }
            &&& forall|i: int|
                0 <= i < before.len() && i < w * h && !(y <= i / (w as int) < y + FONT_Y_SIZE
                    && x <= i % (w as int) < x + text.len() * FONT_X_SIZE) ==> #[trigger] after[i]
                    == before[i]
        }),
{
    let ww = w as int;
    let n = (w * h) as nat;
    let g = grown(before, size, n);
    let pos = y * ww + x;
    let block = text.len() * FONT_X_SIZE;
    assert(0 <= y * ww) by (nonlinear_arith)
        requires
            0 <= y,
            0 <= ww,
    ;
    lemma_text_rows_written(g, pos, ww, text, paper, ink, FONT_Y_SIZE as nat);
    let after = text_rows_written(g, pos, ww, text, paper, ink, FONT_Y_SIZE as nat);
    assert(g.len() >= n);
    lemma_mul_inequality(y + FONT_Y_SIZE, h as int, ww);
    lemma_mul_is_distributive_add_other_way(ww, y, FONT_Y_SIZE as int);
    assert(after.len() >= w * h) by {
        if pos + 23 * ww + block <= g.len() {
        } else {
        }
    }
    assert forall|s: int, j: int, b: int|
        0 <= s < FONT_Y_SIZE && 0 <= j < text.len() && 0 <= b < FONT_X_SIZE implies #[trigger] after[(
    y + s) * w + x + j * FONT_X_SIZE + b] == if glyph_inked(text[j], s, b) {
        ink
    } else {
        paper
    } by {
        let k = j * FONT_X_SIZE + b;
        let i = (y + s) * w + x + j * FONT_X_SIZE + b;
        assert(0 <= k < block) by (nonlinear_arith)
            requires
                0 <= j < text.len(),
                0 <= b < FONT_X_SIZE,
                k == j * FONT_X_SIZE + b,
                block == text.len() * FONT_X_SIZE,
        ;
        lemma_mul_is_distributive_add_other_way(ww, y, s);
        assert(i - pos == s * ww + k);
        lemma_fundamental_div_mod_converse(i - pos, ww, s, k);
        lemma_fundamental_div_mod_converse(k, FONT_X_SIZE as int, j, b);
        assert(s * ww <= 23 * ww) by (nonlinear_arith)
            requires
                s < FONT_Y_SIZE,
                0 <= ww,
        ;
        assert(text_color(text, paper, ink, (i - pos) / ww, (i - pos) % ww) == if glyph_inked(
            text[j],
            s,
            b,
        ) {
            ink
        } else {
            paper
        });
    }
    assert forall|i: int|
        0 <= i < before.len() && i < w * h && !(y <= i / ww < y + FONT_Y_SIZE && x <= i % ww < x
            + block) implies #[trigger] after[i] == before[i] by {
        assert(i < g.len());
        assert(g[i] == before[i]);
        if pos <= i && (i - pos) / ww < FONT_Y_SIZE && (i - pos) % ww < block {
            let q = (i - pos) / ww;
            let r = (i - pos) % ww;
            lemma_fundamental_div_mod(i - pos, ww);
            assert(i == (y + q) * ww + (x + r)) by (nonlinear_arith)
                requires
                    i - pos == ww * q + r,
                    pos == y * ww + x,
            ;
            assert(0 <= q) by (nonlinear_arith)
                requires
                    i - pos >= 0,
                    ww > 0,
                    q == (i - pos) / ww,
            ;
            lemma_fundamental_div_mod_converse(i, ww, y + q, x + r);
        }
    }
}

/// The button a title-bar button location names.
pub open spec fn button_at(offset: int) -> UIButton {
    if offset == CLOSE_OFFSET {
        UIButton::Close
    } else if offset == MAXIMIZE_OFFSET {
        UIButton::Maximize
    } else {
        UIButton::Minimize
    }
}

/// A pointer on any painted pixel of a title bar button is located on that button: the
/// hit areas of the buttons cover what is drawn of them.
pub proof fn law_drawn_buttons_are_hit(w: u32, offset: int, row: int, col: int, old: Location)
    requires
        offset == CLOSE_OFFSET || offset == MAXIMIZE_OFFSET || offset == MINIMIZE_OFFSET,
        offset <= w,
        (w + 2 * BORDER_SIZE) * FIXED_UNIT <= i32::MAX,
        in_button(w as int, offset, row, col),
        old is Top || old is TopRight || old is TopLeft || old is TopBar || old is Button,
    ensures
        precise_location_spec(
            old,
            w,
            (col * FIXED_UNIT + FIXED_UNIT / 2) as i32,
            (row * FIXED_UNIT + FIXED_UNIT / 2) as i32,
        ) == Location::Button(button_at(offset)),
{
}

/// The buttons drawn depend on the pointers only through which buttons they are on:
/// pointer lists that agree on whether each button is hovered (whatever their order,
/// repeats, or pointers elsewhere) draw the same pixels.
pub proof fn law_buttons_depend_only_on_hovered_buttons(
    before: Seq<u32>,
    width: u32,
    maximizable: bool,
    mouses1: Seq<Location>,
    mouses2: Seq<Location>,
)
    requires
        forall|b: UIButton|
            hovered(mouses1, Location::Button(b)) == hovered(mouses2, Location::Button(b)),
    ensures
        buttons_drawn(before, width as int, maximizable, mouses1) == buttons_drawn(
            before,
            width as int,
            maximizable,
            mouses2,
        ),
{
    assert(hovered(mouses1, Location::Button(UIButton::Close)) == hovered(
        mouses2,
        Location::Button(UIButton::Close),
    ));
    assert(hovered(mouses1, Location::Button(UIButton::Maximize)) == hovered(
        mouses2,
        Location::Button(UIButton::Maximize),
    ));
    assert(hovered(mouses1, Location::Button(UIButton::Minimize)) == hovered(
        mouses2,
        Location::Button(UIButton::Minimize),
    ));
    assert(buttons_drawn(before, width as int, maximizable, mouses1) =~= buttons_drawn(
        before,
        width as int,
        maximizable,
        mouses2,
    ));
}

/// Whether byte `c` has no glyph of its own and prints as a question mark.
pub open spec fn unprintable(c: u8) -> bool {
    c < 32 || c > 127
}

/// Unprintable bytes are interchangeable in printed text: two texts of the same length
/// that differ only where the first has an unprintable byte and the second an unprintable
/// byte or a question mark print the same pixels.
pub proof fn law_unprintable_bytes_print_alike(
    mem: Seq<u32>,
    pos: int,
    stride: int,
    text1: Seq<u8>,
    text2: Seq<u8>,
    paper: u32,
    ink: u32,
    n: nat,
)
    requires
        text1.len() == text2.len(),
        forall|j: int|
            0 <= j < text1.len() ==> #[trigger] text1[j] == text2[j] || (unprintable(text1[j]) && (
            unprintable(text2[j]) || text2[j] == 63)),
    ensures
        text_rows_written(mem, pos, stride, text1, paper, ink, n) == text_rows_written(
            mem,
            pos,
            stride,
            text2,
            paper,
            ink,
            n,
        ),
    decreases n,
{
    if n > 0 {
        law_unprintable_bytes_print_alike(mem, pos, stride, text1, text2, paper, ink, (n - 1) as nat);
        let s = n - 1;
        assert forall|k: int| 0 <= k < text1.len() * FONT_X_SIZE implies text_color(
            text1,
            paper,
            ink,
            s,
            k,
        ) == text_color(text2, paper, ink, s, k) by {
            let j = k / (FONT_X_SIZE as int);
            assert(0 <= j < text1.len()) by (nonlinear_arith)
                requires
                    0 <= k < text1.len() * FONT_X_SIZE,
                    j == k / (FONT_X_SIZE as int),
            ;
            assert(glyph_of(text1[j]) == glyph_of(text2[j]));
        }
        assert(scanline_pixels(text1, paper, ink, s) =~= scanline_pixels(text2, paper, ink, s));
    }
}

/// What `print` draws is what `printstring` draws for the text cut to the bytes that fit:
/// where anything is printed, at least one and at most all bytes are drawn, all of them
/// whole glyphs left of the right edge, so the scanlines of the cut text lie the screen
/// width apart as `printstring` lays them out.
pub proof fn law_print_is_printstring_of_the_cut_text(
    mem: Seq<u32>,
    w: u32,
    h: u32,
    x: int,
    y: int,
    text: Seq<u8>,
    paper: u32,
    ink: u32,
)
    requires
        0 <= x,
        print_fits(w as int, h as int, x, y, text.len() as int),
    ensures
        ({
            let n = print_chars(w as int, x, text.len() as int);
            &&& 1 <= n <= text.len()
            &&& x + FONT_X_SIZE * n <= w
            &&& text_rows_written(mem, y * w + x, w as int, text.take(n), paper, ink, FONT_Y_SIZE as nat)
                == text_rows_written(
                mem,
                y * w + x,
                text_stride(w as int, FONT_X_SIZE * text.take(n).len()),
                text.take(n),
                paper,
                ink,
                FONT_Y_SIZE as nat,
            )
        }),
{
    let len = text.len() as int;
    let n = print_chars(w as int, x, len);
    if len * FONT_X_SIZE > w - x {
        lemma_fundamental_div_mod(w - x, FONT_X_SIZE as int);
        assert(1 <= n) by (nonlinear_arith)
            requires
                w - x >= FONT_X_SIZE,
                n == (w - x) / (FONT_X_SIZE as int),
        ;
        assert(n < len) by (nonlinear_arith)
            requires
                len * FONT_X_SIZE > w - x,
                FONT_X_SIZE * n + (w - x) % (FONT_X_SIZE as int) == w - x,
                (w - x) % (FONT_X_SIZE as int) >= 0,
        ;
    }
    assert(text.take(n).len() == n);
}

/// The four decoration parts lie one after the other in the pool, each as large as its
/// geometry says, and together fill exactly the pixels drawn for them; each row of a part
/// is as long as the part is wide. (Where the byte offset of the last part does not fit an
/// `i32`, the offsets wrap and the parts no longer line up.)
pub proof fn law_border_parts_tile_the_pool(w: u32, h: u32)
    requires
        redraw_fits(w, h),
        4 * ((HEADER_SIZE + BORDER_SIZE) * (w + 2 * BORDER_SIZE) + BORDER_SIZE * h) <= i32::MAX,
    ensures
        ({
            let l = border_layout_spec(w, h);
            let n = border_pixel_count_spec(w as int, h as int);
            &&& l.top.offset == 0
            &&& l.bottom.offset == l.top.offset + l.top.stride * l.top.height
            &&& l.left.offset == l.bottom.offset + l.bottom.stride * l.bottom.height
            &&& l.right.offset == l.left.offset + l.left.stride * l.left.height
            &&& 4 * n == l.right.offset + l.right.stride * l.right.height
            &&& l.top.stride == 4 * l.top.width
            &&& l.bottom.stride == 4 * l.bottom.width
            &&& l.left.stride == 4 * l.left.width
            &&& l.right.stride == 4 * l.right.width
        }),
{
    let outer = w + 2 * BORDER_SIZE;
    assert(HEADER_SIZE == 18);
    assert(BORDER_SIZE == 1);
    assert(border_pixel_count_spec(w as int, h as int) == 2 * h + 19 * outer);
    assert(4 * ((HEADER_SIZE + BORDER_SIZE) * outer + BORDER_SIZE * h) <= i32::MAX);
    assert(HEADER_SIZE * outer == 18 * outer);
    assert((HEADER_SIZE + BORDER_SIZE) * outer == 19 * outer);
    assert(0 <= 18 * outer <= i32::MAX);
    assert(((HEADER_SIZE * outer) as i32) == 18 * outer);
    assert(((HEADER_SIZE + BORDER_SIZE) * outer) as i32 == 19 * outer);
    let l = border_layout_spec(w, h);
    assert(l.top.width == outer && l.top.height == 18 && l.top.stride == 4 * outer);
    assert(l.bottom.offset == (4 * ((HEADER_SIZE * outer) as i32)) as i32);
    assert(4 * ((HEADER_SIZE * outer) as i32) == 72 * outer);
    assert((72 * outer) as i32 == 72 * outer);
    assert(l.bottom.offset == 4 * 18 * outer);
    assert(l.bottom.width == outer);
    assert(l.bottom.height == 1);
    assert(l.bottom.stride == 4 * outer);
    assert(4 * (((HEADER_SIZE + BORDER_SIZE) * outer) as i32) == 76 * outer);
    assert((76 * outer) as i32 == 76 * outer);
    assert(l.left.offset == 4 * 19 * outer);
    assert(l.left.width == 1);
    assert(l.left.height == h);
    assert(l.left.stride == 4);
    assert(l.right.offset == 4 * (19 * outer + h) && l.right.width == 1 && l.right.height == h
        && l.right.stride == 4);
}

/// Priority of a pending window event: a close outranks a configure, which outranks a
/// refresh.
pub open spec fn window_event_rank(e: Option<WindowEvent>) -> int {
    match e {
        None => -1,
        Some(WindowEvent::Refresh) => 0,
        Some(WindowEvent::Configure { .. }) => 1,
        Some(WindowEvent::Close) => 2,
    }
}

/// Of the pending window event and a new one, the one of higher priority is kept, the new
/// one when they are of the same kind: a close is never lost, and a configure is never
/// lost to a refresh.
pub proof fn law_window_events_keep_the_highest_priority(
    pending: Option<WindowEvent>,
    evt: WindowEvent,
)
    ensures
        ({
            let r = if replaces(evt, pending) {
                Some(evt)
            } else {
                pending
            };
            &&& window_event_rank(r) == if window_event_rank(Some(evt)) >= window_event_rank(
                pending,
            ) {
                window_event_rank(Some(evt))
            } else {
                window_event_rank(pending)
            }
            &&& window_event_rank(Some(evt)) >= window_event_rank(pending) ==> r == Some(evt)
        }),
{
}

/// Whether a close is among `pending` and `events`.
pub open spec fn closes(pending: Option<WindowEvent>, events: Seq<WindowEvent>) -> bool {
    pending == Some(WindowEvent::Close) || exists|i: int|
        0 <= i < events.len() && #[trigger] events[i] == WindowEvent::Close
}

/// Whether some event of `events` is a configure.
pub open spec fn configures(events: Seq<WindowEvent>) -> bool {
    exists|i: int| 0 <= i < events.len() && #[trigger] events[i] is Configure
}

/// Whether `pending` is a configure.
pub open spec fn configure_pending(pending: Option<WindowEvent>) -> bool {
    match pending {
        Some(WindowEvent::Configure { .. }) => true,
        _ => false,
    }
}

/// Whether `events[j]` is the last configure of `events`.
pub open spec fn last_configure(events: Seq<WindowEvent>, j: int) -> bool {
    &&& 0 <= j < events.len()
    &&& events[j] is Configure
    &&& forall|k: int| j < k < events.len() ==> !(#[trigger] events[k] is Configure)
}

/// Whether a refresh is among `pending` and `events`.
pub open spec fn refreshes(pending: Option<WindowEvent>, events: Seq<WindowEvent>) -> bool {
    pending == Some(WindowEvent::Refresh) || exists|i: int|
        0 <= i < events.len() && #[trigger] events[i] == WindowEvent::Refresh
}

/// Whatever window events arrive before the event loop takes the pending one, what it
/// takes is the one of highest priority: a close if there was any; else the last
/// configure (a configure that was pending if none arrived); else a refresh if there was
/// any; else nothing. A close is never lost, and a configure is never lost to a refresh.
pub proof fn law_pending_window_event_over_a_sequence(
    pending: Option<WindowEvent>,
    events: Seq<WindowEvent>,
)
    ensures
        ({
            let r = after_window_events(pending, events);
            &&& closes(pending, events) ==> r == Some(WindowEvent::Close)
            &&& !closes(pending, events) && configures(events) ==> exists|j: int|
                last_configure(events, j) && r == Some(events[j])
            &&& !closes(pending, events) && !configures(events) && configure_pending(pending)
                ==> r == pending
            &&& !closes(pending, events) && !configures(events) && !configure_pending(pending)
                ==> r == if refreshes(pending, events) {
                Some(WindowEvent::Refresh)
            } else {
                None::<WindowEvent>
            }
        }),
    decreases events.len(),
{
    if events.len() > 0 {
        let prev = events.drop_last();
        let e = events.last();
        let n = events.len() - 1;
        law_pending_window_event_over_a_sequence(pending, prev);
        lemma_window_events_pushed(pending, events);
        let p = after_window_events(pending, prev);
        assert(closes(pending, prev) <==> p == Some(WindowEvent::Close)) by {
            if !closes(pending, prev) && configures(prev) {
                let j = choose|j: int| last_configure(prev, j) && p == Some(prev[j]);
            }
        }
        if !closes(pending, prev) && configures(prev) {
            let j = choose|j: int| last_configure(prev, j) && p == Some(prev[j]);
            assert(events[j] == prev[j]);
            match e {
                WindowEvent::Configure { .. } => {
                    assert(last_configure(events, n));
                },
                _ => {
                    assert forall|k: int| j < k < events.len() implies !(
                    #[trigger] events[k] is Configure) by {
                        if k < n {
                            assert(events[k] == prev[k]);
                        }
                    }
                    assert(last_configure(events, j));
                },
            }
        } else {
            if e is Configure {
                assert(last_configure(events, n));
            }
        }
    }
}

/// How the kinds of window events among `pending` and `events` follow from those of all
/// but the last event and the last one.
proof fn lemma_window_events_pushed(pending: Option<WindowEvent>, events: Seq<WindowEvent>)
    requires
        events.len() > 0,
    ensures
        closes(pending, events) == (closes(pending, events.drop_last()) || events.last()
            == WindowEvent::Close),
        configures(events) == (configures(events.drop_last()) || events.last() is Configure),
        refreshes(pending, events) == (refreshes(pending, events.drop_last()) || events.last()
            == WindowEvent::Refresh),
{
    let prev = events.drop_last();
    let n = events.len() - 1;
    assert(forall|i: int| 0 <= i < prev.len() ==> #[trigger] prev[i] == events[i]);
    if closes(pending, events) && pending != Some(WindowEvent::Close) {
        let i = choose|i: int| 0 <= i < events.len() && #[trigger] events[i] == WindowEvent::Close;
        if i < n {
            assert(prev[i] == WindowEvent::Close);
        }
    }
    if closes(pending, prev) && pending != Some(WindowEvent::Close) {
        let i = choose|i: int| 0 <= i < prev.len() && #[trigger] prev[i] == WindowEvent::Close;
        assert(events[i] == WindowEvent::Close);
    }
    if events.last() == WindowEvent::Close {
        assert(events[n] == WindowEvent::Close);
    }
    if configures(events) {
        let i = choose|i: int| 0 <= i < events.len() && #[trigger] events[i] is Configure;
        if i < n {
            assert(prev[i] is Configure);
        }
    }
    if configures(prev) {
        let i = choose|i: int| 0 <= i < prev.len() && #[trigger] prev[i] is Configure;
        assert(events[i] is Configure);
    }
    if events.last() is Configure {
        assert(events[n] is Configure);
    }
    if refreshes(pending, events) && pending != Some(WindowEvent::Refresh) {
        let i = choose|i: int| 0 <= i < events.len() && #[trigger] events[i] == WindowEvent::Refresh;
        if i < n {
            assert(prev[i] == WindowEvent::Refresh);
        }
    }
    if refreshes(pending, prev) && pending != Some(WindowEvent::Refresh) {
        let i = choose|i: int| 0 <= i < prev.len() && #[trigger] prev[i] == WindowEvent::Refresh;
        assert(events[i] == WindowEvent::Refresh);
    }
    if events.last() == WindowEvent::Refresh {
        assert(events[n] == WindowEvent::Refresh);
    }
}

/// Every byte of printable ASCII (32 to 127) is drawn with its own glyph: glyph number
/// `c - 32` of the font, in the font's order; only the other bytes fall back to `?`.
pub proof fn law_printable_bytes_print_their_own_glyph(c: u8)
    requires
        32 <= c <= 127,
    ensures
        glyph_of(c) == c - 32,
        c != 63 ==> glyph_of(c) != glyph_of(63u8),
{
}

/// The location on the decorations that bears the name of resize edge `e`.
pub open spec fn edge_location(e: Edge) -> Location {
    match e {
        Edge::Top => Location::Top,
        Edge::Bottom => Location::Bottom,
        Edge::Left => Location::Left,
        Edge::TopLeft => Location::TopLeft,
        Edge::BottomLeft => Location::BottomLeft,
        Edge::Right => Location::Right,
        Edge::TopRight => Location::TopRight,
        Edge::BottomRight => Location::BottomRight,
    }
}

/// A left click on an edge or corner of the decorations asks for a resize by that same
/// edge or corner, whether the window is maximized or not; a click on two different
/// edges never asks for the same resize.
pub proof fn law_click_on_an_edge_resizes_by_that_edge(e: Edge, other: Edge, maximized: bool)
    ensures
        request_for_location_spec(edge_location(e), maximized) == Some(FrameAction::Resize(e)),
        e != other ==> request_for_location_spec(edge_location(e), maximized)
            != request_for_location_spec(edge_location(other), maximized),
{
}

/// A motion that moves the pointer to another place on the decorations asks for a redraw
/// exactly when it leaves a button or enters one, so that the button's hover colour is
/// redrawn both ways; a motion that stays where it was asks for nothing.
pub proof fn law_pointer_motion_redraws_when_a_button_is_left_or_entered(
    state: PointerState,
    width: u32,
    maximized: bool,
    x: i32,
    y: i32,
)
    ensures
        ({
            let input = PointerInput::Motion { x, y };
            let next = pointer_next(state, width, input);
            let r = pointer_reaction(state, width, maximized, input);
            &&& next.location != state.location ==> (r.request == Some((FrameAction::Refresh, 0u32))
                <==> ((state.location is Button) || (next.location is Button)))
            &&& next.location != state.location ==> (r.request is None <==> !((
            state.location is Button) || (next.location is Button)))
            &&& next.location == state.location ==> r.request is None
        }),
{
}

/// A configure to a size that differs from the current one, in width or in height, hands
/// the program a resize to the new size and then a refresh with it, resizes the window
/// and takes the new size.
pub proof fn law_configure_to_a_new_size_resizes(size: (u32, u32), w: u32, h: u32)
    requires
        size.0 != w || size.1 != h,
    ensures
        window_reaction_spec(size, Some(WindowEvent::Configure { new_size: Some((w, h)) }))
            == (
            Some((w, h)),
            true,
            seq![
                Way::Resize { width: w, height: h },
                Way::Refresh { width: w as usize, height: h as usize },
            ],
            (w, h),
        ),
{
}

/// Telling the decorations whether the window is active (or maximized) sets just that
/// flag, and reports a change exactly when the state after differs from the state before:
/// in both directions, gaining as well as losing focus.
pub proof fn law_state_changes_are_reported_exactly(f: FrameState, active: bool, maximized: bool)
    ensures
        ({
            let (changed, after) = set_active_spec(f, active);
            &&& after == (FrameState { active, ..f })
            &&& changed == (after != f)
        }),
        ({
            let (changed, after) = set_maximized_spec(f, maximized);
            &&& after == (FrameState { maximized, ..f })
            &&& changed == (after != f)
        }),
{
}

/// A configure to the size the window already has hands the program only a refresh, with
/// that size: no resize event.
pub proof fn law_configure_to_same_size_only_refreshes(size: (u32, u32))
    ensures
        window_reaction_spec(size, Some(WindowEvent::Configure { new_size: Some(size) })).2
            == seq![Way::Refresh { width: size.0 as usize, height: size.1 as usize }],
{
}

/// Taking the decorations away from the size they add gives back the content size.
#[verifier::spinoff_prover]
pub proof fn law_borders_round_trip(hidden: bool, width: int, height: int)
    ensures
        without_borders(
            hidden,
            with_borders(hidden, width, height).0,
            with_borders(hidden, width, height).1,
        ) == (width, height),
{
    if !hidden {
        assert(with_borders(hidden, width, height) == (width + 2, height + 19));
    }
}

/// Telling the decorations twice that the window is (or is not) active reports a change
/// the first time at most: the second call reports no change and leaves the state as it
/// is. The same holds of telling them twice whether the window is maximized.
pub proof fn law_setting_a_state_twice_changes_nothing(f: FrameState, active: bool, maximized: bool)
    ensures
        ({
            let (_, once) = set_active_spec(f, active);
            let (again, twice) = set_active_spec(once, active);
            !again && twice == once
        }),
        ({
            let (_, once) = set_maximized_spec(f, maximized);
            let (again, twice) = set_maximized_spec(once, maximized);
            !again && twice == once
        }),
{
}

/// The three title bar buttons never share a pixel.
pub proof fn law_buttons_do_not_overlap(w: u32, i: int)
    requires
        0 <= i,
    ensures
        !(on_button(w as int, CLOSE_OFFSET as int, i) && on_button(w as int, MAXIMIZE_OFFSET as int, i)),
        !(on_button(w as int, CLOSE_OFFSET as int, i) && on_button(w as int, MINIMIZE_OFFSET as int, i)),
        !(on_button(w as int, MAXIMIZE_OFFSET as int, i) && on_button(w as int, MINIMIZE_OFFSET as int, i)),
{
}

} // verus!

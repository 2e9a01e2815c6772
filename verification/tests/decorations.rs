use simple_wayland::buttons::{
    allow_pixel, draw_buttons, any_at, ACTIVE_BORDER, INACTIVE_BORDER, RED_BUTTON_HOVER,
    RED_BUTTON_REGULAR, YELLOW_BUTTON_REGULAR, YELLOW_BUTTON_DISABLED, YELLOW_BUTTON_HOVER,
    GREEN_BUTTON_REGULAR, GREEN_BUTTON_HOVER,
};
use simple_wayland::frame::{
    change_pointer, find_button, part_location, pointer_event, pointer_event_overflows,
    precise_location,
    request_for_location, CursorChange, Edge, FrameAction, FrameState, Location, PointerInput,
    PointerState, UIButton, BOTTOM, LEFT, RIGHT, TOP,
};
use simple_wayland::redraw::{border_layout, border_pixel_count, border_pixels, redraw};

const OVAL: [[bool; 24]; 16] = [
    [
        false, false, false, false, false, false, false, false, true, true, true, true, true, true,
        true, true, false, false, false, false, false, false, false, false,
    ],
    [
        false, false, false, false, false, true, true, true, true, true, true, true, true, true,
        true, true, true, true, true, false, false, false, false, false,
    ],
    [
        false, false, false, true, true, true, true, true, true, true, true, true, true, true,
        true, true, true, true, true, true, true, false, false, false,
    ],
    [
        false, false, true, true, true, true, true, true, true, true, true, true, true, true, true,
        true, true, true, true, true, true, true, false, false,
    ],
    [
        false, true, true, true, true, true, true, true, true, true, true, true, true, true, true,
        true, true, true, true, true, true, true, true, false,
    ],
    [
        false, true, true, true, true, true, true, true, true, true, true, true, true, true, true,
        true, true, true, true, true, true, true, true, false,
    ],
    [
        true, true, true, true, true, true, true, true, true, true, true, true, true, true, true,
        true, true, true, true, true, true, true, true, true,
    ],
    [
        true, true, true, true, true, true, true, true, true, true, true, true, true, true, true,
        true, true, true, true, true, true, true, true, true,
    ],
    [
        true, true, true, true, true, true, true, true, true, true, true, true, true, true, true,
        true, true, true, true, true, true, true, true, true,
    ],
    [
        true, true, true, true, true, true, true, true, true, true, true, true, true, true, true,
        true, true, true, true, true, true, true, true, true,
    ],
    [
        false, true, true, true, true, true, true, true, true, true, true, true, true, true, true,
        true, true, true, true, true, true, true, true, false,
    ],
    [
        false, true, true, true, true, true, true, true, true, true, true, true, true, true, true,
        true, true, true, true, true, true, true, true, false,
    ],
    [
        false, false, true, true, true, true, true, true, true, true, true, true, true, true, true,
        true, true, true, true, true, true, true, false, false,
    ],
    [
        false, false, false, true, true, true, true, true, true, true, true, true, true, true,
        true, true, true, true, true, true, true, false, false, false,
    ],
    [
        false, false, false, false, false, true, true, true, true, true, true, true, true, true,
        true, true, true, true, true, false, false, false, false, false,
    ],
    [
        false, false, false, false, false, false, false, false, true, true, true, true, true, true,
        true, true, false, false, false, false, false, false, false, false,
    ],
];

fn fx(pixels: f64) -> i32 {
    (pixels * 256.0) as i32
}

#[test]
fn button_oval_has_the_expected_rows() {
    for r in 0..16 {
        for c in 0..24 {
            assert_eq!(allow_pixel(r, c), OVAL[r][c]);
        }
    }
}

#[test]
fn part_location_names_the_four_parts() {
    assert_eq!(part_location(Some(TOP)), Location::Top);
    assert_eq!(part_location(Some(BOTTOM)), Location::Bottom);
    assert_eq!(part_location(Some(LEFT)), Location::Left);
    assert_eq!(part_location(Some(RIGHT)), Location::Right);
    assert_eq!(part_location(Some(7)), Location::Outside);
    assert_eq!(part_location(None), Location::Outside);
}

#[test]
fn precise_location_on_the_top_part() {
    let w = 200;
    assert_eq!(precise_location(Location::Top, w, fx(0.5), fx(10.0)), Location::TopLeft);
    assert_eq!(precise_location(Location::Top, w, fx(1.0), fx(10.0)), Location::TopLeft);
    assert_eq!(precise_location(Location::Top, w, fx(201.0), fx(10.0)), Location::TopRight);
    assert_eq!(precise_location(Location::Top, w, fx(100.0), fx(1.0)), Location::Top);
    assert_eq!(precise_location(Location::Top, w, fx(100.0), fx(10.0)), Location::TopBar);
    assert_eq!(
        precise_location(Location::TopBar, w, fx(190.0), fx(10.0)),
        Location::Button(UIButton::Close)
    );
    assert_eq!(
        precise_location(Location::Button(UIButton::Close), w, fx(160.0), fx(10.0)),
        Location::Button(UIButton::Maximize)
    );
    assert_eq!(
        precise_location(Location::TopBar, w, fx(130.0), fx(10.0)),
        Location::Button(UIButton::Minimize)
    );
    // below the buttons
    assert_eq!(precise_location(Location::TopBar, w, fx(190.0), fx(17.5)), Location::TopBar);
}

#[test]
fn precise_location_on_the_bottom_and_sides() {
    let w = 200;
    assert_eq!(precise_location(Location::Bottom, w, fx(0.0), fx(0.5)), Location::BottomLeft);
    assert_eq!(precise_location(Location::Bottom, w, fx(250.0), fx(0.5)), Location::BottomRight);
    assert_eq!(precise_location(Location::BottomLeft, w, fx(50.0), fx(0.5)), Location::Bottom);
    assert_eq!(precise_location(Location::Left, w, fx(0.0), fx(0.0)), Location::Left);
    assert_eq!(precise_location(Location::Right, w, fx(0.0), fx(0.0)), Location::Right);
    assert_eq!(precise_location(Location::Outside, w, fx(5.0), fx(5.0)), Location::Outside);
}

#[test]
fn find_button_needs_room_for_each_button() {
    // a window 30 pixels wide only has the close button
    assert_eq!(find_button(fx(20.0), fx(5.0), 30), Location::Button(UIButton::Close));
    assert_eq!(find_button(fx(2.0), fx(5.0), 30), Location::TopBar);
    assert_eq!(find_button(fx(20.0), fx(5.0), 20), Location::TopBar);
    // exact edges: (w + 1 - 24, w + 1]
    assert_eq!(find_button(fx(177.0), fx(5.0), 200), Location::TopBar);
    assert_eq!(find_button(fx(177.004), fx(5.0), 200), Location::Button(UIButton::Close));
    assert_eq!(find_button(fx(201.0), fx(17.0), 200), Location::Button(UIButton::Close));
    assert_eq!(find_button(fx(201.0), fx(17.004), 200), Location::TopBar);
}

#[test]
fn change_pointer_names_the_cursor_images() {
    assert_eq!(change_pointer(Location::Top), "top_side");
    assert_eq!(change_pointer(Location::TopRight), "top_right_corner");
    assert_eq!(change_pointer(Location::Right), "right_side");
    assert_eq!(change_pointer(Location::BottomRight), "bottom_right_corner");
    assert_eq!(change_pointer(Location::Bottom), "bottom_side");
    assert_eq!(change_pointer(Location::BottomLeft), "bottom_left_corner");
    assert_eq!(change_pointer(Location::Left), "left_side");
    assert_eq!(change_pointer(Location::TopLeft), "top_left_corner");
    assert_eq!(change_pointer(Location::TopBar), "left_ptr");
    assert_eq!(change_pointer(Location::Button(UIButton::Close)), "left_ptr");
    assert_eq!(change_pointer(Location::Outside), "left_ptr");
}

#[test]
fn request_for_location_maps_clicks_to_actions() {
    assert_eq!(request_for_location(Location::Top, false), Some(FrameAction::Resize(Edge::Top)));
    assert_eq!(
        request_for_location(Location::BottomRight, true),
        Some(FrameAction::Resize(Edge::BottomRight))
    );
    assert_eq!(request_for_location(Location::TopBar, false), Some(FrameAction::Move));
    assert_eq!(
        request_for_location(Location::Button(UIButton::Close), false),
        Some(FrameAction::Close)
    );
    assert_eq!(
        request_for_location(Location::Button(UIButton::Maximize), false),
        Some(FrameAction::Maximize)
    );
    assert_eq!(
        request_for_location(Location::Button(UIButton::Maximize), true),
        Some(FrameAction::UnMaximize)
    );
    assert_eq!(
        request_for_location(Location::Button(UIButton::Minimize), true),
        Some(FrameAction::Minimize)
    );
    assert_eq!(request_for_location(Location::Outside, true), None);
}

#[test]
fn pointer_enter_motion_click_leave() {
    let st = PointerState { location: Location::Outside, position: (0, 0) };
    let (st, r) = pointer_event(
        st,
        200,
        false,
        PointerInput::Enter { serial: 5, part: Some(TOP), x: fx(100.0), y: fx(10.0) },
    );
    assert_eq!(st.location, Location::TopBar);
    assert_eq!(st.position, (fx(100.0), fx(10.0)));
    assert_eq!(r.request, None);
    assert_eq!(r.cursor, Some(CursorChange { location: Location::TopBar, serial: Some(5) }));

    // onto the close button: a redraw is asked for and the cursor updated
    let (st, r) = pointer_event(st, 200, false, PointerInput::Motion { x: fx(190.0), y: fx(10.0) });
    assert_eq!(st.location, Location::Button(UIButton::Close));
    assert_eq!(r.request, Some((FrameAction::Refresh, 0)));
    assert_eq!(
        r.cursor,
        Some(CursorChange { location: Location::Button(UIButton::Close), serial: None })
    );

    // moving within the button changes nothing
    let (st, r) = pointer_event(st, 200, false, PointerInput::Motion { x: fx(191.0), y: fx(11.0) });
    assert_eq!(r.request, None);
    assert_eq!(r.cursor, None);
    assert_eq!(st.position, (fx(191.0), fx(11.0)));

    // left click on it closes, other buttons and releases do nothing
    let (st, r) = pointer_event(
        st,
        200,
        false,
        PointerInput::Button { serial: 9, button: 0x110, pressed: true },
    );
    assert_eq!(r.request, Some((FrameAction::Close, 9)));
    let (st, r) = pointer_event(
        st,
        200,
        false,
        PointerInput::Button { serial: 10, button: 0x111, pressed: true },
    );
    assert_eq!(r.request, None);
    let (st, r) = pointer_event(
        st,
        200,
        false,
        PointerInput::Button { serial: 11, button: 0x110, pressed: false },
    );
    assert_eq!(r.request, None);

    let (st, r) = pointer_event(st, 200, false, PointerInput::Leave { serial: 12 });
    assert_eq!(st.location, Location::Outside);
    assert_eq!(r.cursor, Some(CursorChange { location: Location::Outside, serial: Some(12) }));
    assert_eq!(change_pointer(r.cursor.unwrap().location), "left_ptr");
}

#[test]
fn pointer_motion_between_plain_parts_needs_no_redraw() {
    let st = PointerState { location: Location::TopBar, position: (0, 0) };
    let (st, r) = pointer_event(st, 200, false, PointerInput::Motion { x: fx(0.5), y: fx(5.0) });
    assert_eq!(st.location, Location::TopLeft);
    assert_eq!(r.request, None);
    assert_eq!(r.cursor, Some(CursorChange { location: Location::TopLeft, serial: None }));
}

#[test]
fn frame_state_reports_changes() {
    let mut f = FrameState::new();
    assert_eq!(f, FrameState { active: false, hidden: false, maximized: false, size: (1, 1) });
    assert!(f.set_active(true));
    assert!(!f.set_active(true));
    assert!(f.set_maximized(true));
    assert!(!f.set_maximized(true));
    assert!(f.set_maximized(false));
    f.resize((300, 200));
    assert_eq!(f.size, (300, 200));
    assert_eq!(f.add_borders(300, 200), (302, 219));
    assert_eq!(f.subtract_borders(302, 219), (300, 200));
    f.set_hidden(true);
    assert_eq!(f.add_borders(300, 200), (300, 200));
    assert_eq!(f.subtract_borders(300, 200), (300, 200));
}

#[test]
fn draw_buttons_paints_three_ovals_in_their_colours() {
    let w: u32 = 100;
    let stride = (w + 2) as usize;
    let mut px = vec![0u32; 19 * stride];
    draw_buttons(&mut px, w, true, vec![Location::Button(UIButton::Maximize)]);
    // centre row 8 (header row 9) of each button
    let at = |col: usize| px[9 * stride + col];
    assert_eq!(at(w as usize + 1 - 24 + 12), RED_BUTTON_REGULAR);
    assert_eq!(at(w as usize + 1 - 56 + 12), YELLOW_BUTTON_HOVER);
    assert_eq!(at(w as usize + 1 - 88 + 12), GREEN_BUTTON_REGULAR);
    // corners of the oval stay untouched, as does the row above
    assert_eq!(px[stride + w as usize + 1 - 24], 0);
    assert_eq!(px[w as usize], 0);
    // painted pixels are exactly the oval cells
    let painted = px.iter().filter(|&&p| p != 0).count();
    let cells = OVAL.iter().flatten().filter(|&&b| b).count();
    assert_eq!(painted, 3 * cells);
}

#[test]
fn draw_buttons_depends_on_width_and_state() {
    let w: u32 = 60;
    let stride = (w + 2) as usize;
    let mut px = vec![0u32; 19 * stride];
    draw_buttons(
        &mut px,
        w,
        false,
        vec![Location::Button(UIButton::Close), Location::Button(UIButton::Maximize)],
    );
    let at = |col: usize| px[9 * stride + col];
    assert_eq!(at(w as usize + 1 - 24 + 12), RED_BUTTON_HOVER);
    assert_eq!(at(w as usize + 1 - 56 + 12), YELLOW_BUTTON_DISABLED);
    let cells = OVAL.iter().flatten().filter(|&&b| b).count();
    assert_eq!(px.iter().filter(|&&p| p != 0).count(), 2 * cells);

    let mut narrow = vec![0u32; 19 * 22];
    draw_buttons(&mut narrow, 20, true, vec![]);
    assert!(narrow.iter().all(|&p| p == 0));
    assert!(!any_at(&vec![Location::Top], Location::Button(UIButton::Minimize)));
    assert_eq!(YELLOW_BUTTON_REGULAR, 0xFFB0B040);
    assert_eq!(GREEN_BUTTON_HOVER, 0xFF40FF40);
}

#[test]
fn border_pixels_fill_every_part_and_draw_buttons() {
    let (w, h) = (100u32, 50u32);
    let n = border_pixel_count(w, h);
    assert_eq!(n, 2 * 50 + 102 * 19);
    let px = border_pixels(w, h, true, vec![]);
    assert_eq!(px.len(), n as usize);
    assert_eq!(px[0], ACTIVE_BORDER);
    assert_eq!(px[n as usize - 1], ACTIVE_BORDER);
    assert_eq!(px[9 * 102 + 101 - 24 + 12], RED_BUTTON_REGULAR);
    let inactive = border_pixels(w, h, false, vec![]);
    assert_eq!(inactive[0], INACTIVE_BORDER);
}

#[test]
fn border_layout_places_the_four_parts() {
    let l = border_layout(100, 50);
    assert_eq!((l.top.offset, l.top.width, l.top.height, l.top.stride), (0, 102, 18, 408));
    assert_eq!((l.top.x, l.top.y), (-1, -18));
    assert_eq!(
        (l.bottom.offset, l.bottom.width, l.bottom.height, l.bottom.stride),
        (4 * 18 * 102, 102, 1, 408)
    );
    assert_eq!((l.bottom.x, l.bottom.y), (-1, 50));
    assert_eq!((l.left.offset, l.left.width, l.left.height, l.left.stride), (4 * 19 * 102, 1, 50, 4));
    assert_eq!((l.left.x, l.left.y), (-1, 0));
    assert_eq!(
        (l.right.offset, l.right.width, l.right.height, l.right.stride),
        (4 * (19 * 102 + 50), 1, 50, 4)
    );
    assert_eq!((l.right.x, l.right.y), (100, 0));
    // the parts tile the pool
    assert_eq!(l.right.offset + l.right.stride * l.right.height, 4 * border_pixel_count(100, 50) as i32);
}

#[test]
fn redraw_draws_nothing_when_hidden() {
    let mut f = FrameState::new();
    f.resize((100, 50));
    let img = redraw(&f, vec![]).unwrap();
    assert_eq!(img.pixels.len(), border_pixel_count(100, 50) as usize);
    assert_eq!(img.layout, border_layout(100, 50));
    f.set_hidden(true);
    assert!(redraw(&f, vec![]).is_none());
}

#[test]
fn clicking_a_drawn_button_hits_it() {
    // every painted pixel of each button is located on that button
    let w: u32 = 120;
    for (off, b) in [(24usize, UIButton::Close), (56, UIButton::Maximize), (88, UIButton::Minimize)] {
        for r in 0..16 {
            for c in 0..24 {
                if OVAL[r][c] {
                    let col = w as usize + 1 - off + c;
                    let row = 1 + r;
                    let x = (col * 256 + 128) as i32;
                    let y = (row * 256 + 128) as i32;
                    assert_eq!(precise_location(Location::TopBar, w, x, y), Location::Button(b));
                }
            }
        }
    }
}

#[test]
fn buttons_depend_only_on_which_are_hovered() {
    let w: u32 = 100;
    let n = (17 * (w + 2)) as usize;
    let mut a = vec![7u32; n];
    let mut b = vec![7u32; n];
    draw_buttons(
        &mut a,
        w,
        true,
        vec![Location::Button(UIButton::Close), Location::TopBar, Location::Button(UIButton::Close)],
    );
    draw_buttons(&mut b, w, true, vec![Location::Left, Location::Button(UIButton::Close)]);
    assert_eq!(a, b);
    let mut c = vec![7u32; n];
    draw_buttons(&mut c, w, true, vec![Location::Button(UIButton::Minimize)]);
    assert_ne!(a, c);
}

#[test]
fn pointer_on_the_widest_window() {
    let w = u32::MAX;
    let st = PointerState { location: Location::Top, position: (0, 0) };
    // leaving, clicking and the sides need no right end
    let leave = PointerInput::Leave { serial: 3 };
    assert!(!pointer_event_overflows(st, w, leave));
    let (next, _) = pointer_event(st, w, false, leave);
    assert_eq!(next.location, Location::Outside);
    let enter_left = PointerInput::Enter { serial: 4, part: Some(LEFT), x: 0, y: 5000 };
    assert!(!pointer_event_overflows(st, w, enter_left));
    assert_eq!(pointer_event(st, w, false, enter_left).0.location, Location::Left);
    // the top-left corner is found before the right end is needed
    let corner = PointerInput::Motion { x: 256, y: 256 };
    assert!(!pointer_event_overflows(st, w, corner));
    assert_eq!(pointer_event(st, w, false, corner).0.location, Location::TopLeft);
    // further right on the top part, the right end overflows
    assert!(pointer_event_overflows(st, w, PointerInput::Motion { x: 257, y: 256 }));
    assert!(!pointer_event_overflows(st, w - 1, PointerInput::Motion { x: 257, y: 256 }));
}

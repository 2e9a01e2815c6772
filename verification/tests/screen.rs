use simple_wayland::font::{glyph_index, glyph_scanline, FONT, FONT_X_SIZE, FONT_Y_SIZE};
use simple_wayland::screen::{Screen, DEFAULT_INK, DEFAULT_PAPER, OPAQUE};
use simple_wayland::pool::{Pool, INITIAL_POOL_PIXELS};
use simple_wayland::canvas::{pixfill, printstring};

fn px(s: &Screen, x: usize, y: usize) -> u32 {
    let (w, _) = s.dimensions();
    s.pixel(y * w as usize + x)
}

/// Colour that the font table gives column `col` of scanline `row` of byte `c`.
fn glyph_color(c: u8, row: usize, col: usize, paper: u32, ink: u32) -> u32 {
    let g = if c < 32 || c > 127 { 31 } else { c as usize - 32 };
    if (FONT[g * FONT_Y_SIZE + row] >> col) & 1 == 0 {
        paper
    } else {
        ink
    }
}

#[test]
fn new_screen_has_default_colours_and_small_pool() {
    let s = Screen::new(640, 480);
    assert_eq!(s.dimensions(), (640, 480));
    assert_eq!(DEFAULT_PAPER, 0);
    assert_eq!(DEFAULT_INK, 0x00ff00);
    assert_eq!(s.memory_len(), INITIAL_POOL_PIXELS);
    assert_eq!(INITIAL_POOL_PIXELS, 32);
}

#[test]
fn cls_paints_every_pixel_with_paper() {
    let mut s = Screen::new(8, 4);
    s.paper(0x123456);
    s.cls();
    assert!(s.memory_len() >= 32);
    for i in 0..32 {
        assert_eq!(s.pixel(i), 0xff123456);
    }
}

#[test]
fn plot_paints_one_pixel_with_ink() {
    let mut s = Screen::new(10, 10);
    s.cls();
    s.ink(0x00abcdef);
    s.plot(3, 2);
    assert_eq!(px(&s, 3, 2), 0xffabcdef);
    assert_eq!(px(&s, 2, 2), 0xff000000);
    assert_eq!(px(&s, 4, 2), 0xff000000);
    assert_eq!(px(&s, 3, 1), 0xff000000);
    assert_eq!(s.memory_len(), 100);
}

#[test]
fn plot_past_the_right_edge_runs_into_next_row() {
    let mut s = Screen::new(10, 10);
    s.cls();
    s.plot(12, 0);
    assert_eq!(px(&s, 2, 1), 0xff00ff00);
}

#[test]
fn plot_on_fresh_screen_grows_pool_with_zeros() {
    let mut s = Screen::new(4, 16);
    s.plot(1, 1);
    assert_eq!(s.memory_len(), 64);
    assert_eq!(s.pixel(5), 0xff00ff00);
    assert_eq!(s.pixel(4), 0);
    assert_eq!(s.pixel(40), 0);
}

#[test]
fn print_draws_glyphs_ink_on_paper() {
    let mut s = Screen::new(100, 40);
    s.paper(0x000010);
    s.ink(0x00ff00);
    s.cls();
    s.print(5, 3, "Hi");
    for row in 0..FONT_Y_SIZE {
        for (j, c) in "Hi".bytes().enumerate() {
            for col in 0..FONT_X_SIZE {
                let want = glyph_color(c, row, col, 0xff000010, 0xff00ff00);
                assert_eq!(px(&s, 5 + j * FONT_X_SIZE + col, 3 + row), want);
            }
        }
        // right after the two cells the paper is untouched
        assert_eq!(px(&s, 5 + 2 * FONT_X_SIZE, 3 + row), 0xff000010);
        assert_eq!(px(&s, 4, 3 + row), 0xff000010);
    }
    assert_eq!(px(&s, 5, 2), 0xff000010);
    assert_eq!(px(&s, 5, 3 + FONT_Y_SIZE), 0xff000010);
}

#[test]
fn print_letter_a_has_known_shape() {
    let mut s = Screen::new(17, 24);
    s.paper(0);
    s.ink(0xffffff);
    s.print(0, 0, "A");
    // scanline 7 of 'A' is 1728 = 0b110_1100_0000: columns 6, 7, 9, 10
    let row: Vec<u32> = (0..17).map(|x| px(&s, x, 7)).collect();
    for (x, v) in row.iter().enumerate() {
        let inked = matches!(x, 6 | 7 | 9 | 10);
        assert_eq!(*v, if inked { 0xffffffff } else { 0xff000000 }, "column {}", x);
    }
}

#[test]
fn print_cuts_text_at_the_right_edge() {
    let mut s = Screen::new(40, 30);
    s.cls();
    s.print(0, 0, "ABC");
    // only two cells (34 pixels) fit into 40 columns
    let c_glyph_inked_anywhere = (0..FONT_Y_SIZE)
        .any(|r| (34..40).any(|x| px(&s, x, r) != 0xff000000));
    assert!(!c_glyph_inked_anywhere);
    let a_inked = (0..FONT_Y_SIZE).any(|r| (0..17).any(|x| px(&s, x, r) == 0xff00ff00));
    assert!(a_inked);
}

#[test]
fn print_that_does_not_fit_draws_nothing() {
    let mut s = Screen::new(40, 30);
    s.cls();
    let before: Vec<u32> = (0..1200).map(|i| s.pixel(i)).collect();
    s.print(30, 0, "A");
    s.print(0, 10, "A");
    s.print(0, 0, "");
    let after: Vec<u32> = (0..1200).map(|i| s.pixel(i)).collect();
    assert_eq!(before, after);
}

#[test]
fn print_off_a_huge_screen_draws_nothing() {
    // 40000 x 40000 pixels take more bytes than a u32 counts; a print that does not fit
    // never sizes the pool, so it is fine
    let mut s = Screen::new(40000, 40000);
    s.print(39990, 0, "A");
    s.print(0, 39990, "A");
    assert_eq!(s.memory_len(), INITIAL_POOL_PIXELS);
    assert!((0..INITIAL_POOL_PIXELS).all(|i| s.pixel(i) == 0));
}

#[test]
fn print_shows_unprintable_bytes_as_question_marks() {
    let mut a = Screen::new(17, 24);
    a.print(0, 0, "\u{7}");
    let mut b = Screen::new(17, 24);
    b.print(0, 0, "?");
    for i in 0..(17 * 24) {
        assert_eq!(a.pixel(i), b.pixel(i));
    }
}

#[test]
fn print_multibyte_char_prints_one_question_mark_per_byte() {
    // "é" is two bytes; both print as '?'
    let mut a = Screen::new(40, 24);
    a.print(0, 0, "é");
    let mut b = Screen::new(40, 24);
    b.print(0, 0, "??");
    for i in 0..(40 * 24) {
        assert_eq!(a.pixel(i), b.pixel(i));
    }
}

#[test]
fn welcome_scenario_of_the_demo_program() {
    let mut s = Screen::new(640, 480);
    s.paper(0x0e0000);
    s.ink(0x00ff00);
    s.cls();
    s.print(0, 0, "Welcome to pid 42");
    let bottom_row = 480 - FONT_Y_SIZE;
    s.print(0, bottom_row, "Smithay-powered Wayland client");
    assert_eq!(s.memory_len(), 640 * 480);
    for (j, c) in "Welcome".bytes().enumerate() {
        for row in 0..FONT_Y_SIZE {
            for col in 0..FONT_X_SIZE {
                assert_eq!(
                    px(&s, j * FONT_X_SIZE + col, row),
                    glyph_color(c, row, col, 0xff0e0000, 0xff00ff00)
                );
            }
        }
    }
    let last = "Smithay-powered Wayland client".as_bytes()[29];
    for row in 0..FONT_Y_SIZE {
        for col in 0..FONT_X_SIZE {
            assert_eq!(
                px(&s, 29 * FONT_X_SIZE + col, bottom_row + row),
                glyph_color(last, row, col, 0xff0e0000, 0xff00ff00)
            );
        }
    }
    assert_eq!(px(&s, 600, 200), 0xff0e0000);
}

#[test]
fn frame_bytes_encode_visible_pixels() {
    let mut s = Screen::new(2, 2);
    s.paper(0x00112233);
    s.cls();
    let bytes = s.frame_bytes();
    assert_eq!(bytes.len(), 16);
    for k in 0..4 {
        assert_eq!(&bytes[4 * k..4 * k + 4], &0xff112233u32.to_ne_bytes());
    }
}

#[test]
fn glyph_index_maps_printable_ascii_and_falls_back_to_question_mark() {
    assert_eq!(glyph_index(b' '), 0);
    assert_eq!(glyph_index(b'A'), 33);
    assert_eq!(glyph_index(127), 95);
    assert_eq!(glyph_index(10), 31);
    assert_eq!(glyph_index(200), 31);
    assert_eq!(glyph_scanline(b'A', 7), 1728);
    assert_eq!(FONT.len(), 96 * FONT_Y_SIZE);
}

#[test]
fn pixfill_runs_across_rows_and_grows_pool() {
    let mut p = Pool::new();
    pixfill(&mut p, 4, 10, 2, 1, 7, 5);
    assert_eq!(p.memory_len(), 40);
    let got: Vec<u32> = (0..12).map(|i| p.pixel(i)).collect();
    assert_eq!(got, vec![0, 0, 0, 0, 0, 0, 7, 7, 7, 7, 7, 0]);
}

#[test]
fn pool_resize_only_grows_and_writes_extend_memory() {
    let mut p = Pool::new();
    p.resize(10);
    assert_eq!(p.memory_len(), 32);
    p.resize(40);
    assert_eq!(p.memory_len(), 40);
    p.put(45, 9);
    assert_eq!(p.memory_len(), 46);
    assert_eq!(p.pixel(44), 0);
    assert_eq!(p.pixel(45), 9);
    // a larger size cuts the memory back to exactly that size
    p.resize(42);
    assert_eq!(p.memory_len(), 42);
}

#[test]
fn printstring_wider_than_screen_stacks_scanlines() {
    let mut p = Pool::new();
    printstring(&mut p, 10, 100, 0, 0, 1, 2, "A");
    // the block (17 pixels) is wider than the screen (10): scanlines follow each other
    for row in 0..FONT_Y_SIZE {
        for col in 0..FONT_X_SIZE {
            assert_eq!(p.pixel(row * 17 + col), glyph_color(b'A', row, col, 1, 2));
        }
    }
}

#[test]
fn unprintable_bytes_print_alike() {
    let mut a = Pool::new();
    let mut b = Pool::new();
    printstring(&mut a, 60, 30, 1, 2, 0xff000000, 0xffffffff, "\u{1}A\u{7f}");
    printstring(&mut b, 60, 30, 1, 2, 0xff000000, 0xffffffff, "?A\u{7f}");
    assert_eq!(a.memory_len(), b.memory_len());
    assert!((0..a.memory_len()).all(|i| a.pixel(i) == b.pixel(i)));
    // byte 127 has a glyph of its own
    let mut c = Pool::new();
    printstring(&mut c, 60, 30, 1, 2, 0xff000000, 0xffffffff, "?A?");
    assert!((0..a.memory_len()).any(|i| a.pixel(i) != c.pixel(i)));
}

#[test]
fn print_is_printstring_of_the_cut_text() {
    let mut s = Screen::new(40, 30);
    s.paper(0x0e0000);
    s.ink(0x00ff00);
    s.print(3, 2, "ABCDEF");
    // (40 - 3) / 17 = 2 whole glyphs fit
    let mut p = Pool::new();
    printstring(&mut p, 40, 30, 3, 2, 0x0e0000 | OPAQUE, 0x00ff00 | OPAQUE, "AB");
    assert_eq!(s.memory_len(), p.memory_len());
    assert!((0..p.memory_len()).all(|i| s.pixel(i) == p.pixel(i)));
}

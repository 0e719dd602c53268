use blackbox_rs::display::{
    self, alternate_function_slot, draw_pixel, pixel_offset, Display, FB_STRIDE, HEIGHT, MAX_BACKLIGHT_PCT, PIXELS,
    WIDTH,
};

const BASE: usize = 0xC000_0000;

#[test]
fn display_starts_with_buffer_zero_to_present() {
    let d = Display::new(BASE);
    assert_eq!(d.target(), BASE);
    assert_eq!(d.buffers(), [BASE, BASE + FB_STRIDE]);
    assert_eq!(d.backlight(), MAX_BACKLIGHT_PCT);
}

#[test]
fn swap_presents_back_buffer_and_alternates() {
    let mut d = Display::new(BASE);
    assert_eq!(d.swap(), BASE);
    assert_eq!(d.target(), BASE + FB_STRIDE);
    assert_eq!(d.swap(), BASE + FB_STRIDE);
    assert_eq!(d.target(), BASE);
    assert_eq!(d.swap(), BASE);
}

#[test]
fn backlight_is_clamped() {
    let mut d = Display::new(BASE);
    d.set_backlight(10);
    assert_eq!(d.backlight(), 10);
    d.set_backlight(35);
    assert_eq!(d.backlight(), 35);
    d.set_backlight(36);
    assert_eq!(d.backlight(), 35);
    d.set_backlight(255);
    assert_eq!(d.backlight(), MAX_BACKLIGHT_PCT);
    d.set_backlight(0);
    assert_eq!(d.backlight(), 0);
}

#[test]
fn pixel_offsets() {
    assert_eq!(pixel_offset(0, 0), Some(0));
    assert_eq!(pixel_offset(319, 0), Some(319));
    assert_eq!(pixel_offset(0, 1), Some(320));
    assert_eq!(pixel_offset(319, 239), Some(PIXELS - 1));
    assert_eq!(pixel_offset(320, 0), None);
    assert_eq!(pixel_offset(0, 240), None);
    assert_eq!(pixel_offset(-1, 5), None);
    assert_eq!(pixel_offset(5, -1), None);
    assert_eq!(pixel_offset(i32::MIN, i32::MAX), None);
}

#[test]
fn drawing_paints_only_on_panel_pixels() {
    let mut buf = vec![0u16; PIXELS];
    draw_pixel(&mut buf, 10, 2, 0xF800);
    draw_pixel(&mut buf, -3, 2, 0x07E0);
    draw_pixel(&mut buf, 320, 2, 0x07E0);
    draw_pixel(&mut buf, 10, 240, 0x07E0);
    assert_eq!(buf[2 * 320 + 10], 0xF800);
    assert_eq!(buf.iter().filter(|&&c| c != 0).count(), 1);
    draw_pixel(&mut buf, 10, 2, 0x001F);
    assert_eq!(buf[2 * 320 + 10], 0x001F);
}

#[test]
fn size_and_af_slots() {
    assert_eq!(display::size(), (WIDTH as u32, HEIGHT as u32));
    assert_eq!(alternate_function_slot(0), (0, 0));
    assert_eq!(alternate_function_slot(7), (0, 7));
    assert_eq!(alternate_function_slot(13), (1, 5));
    assert_eq!(alternate_function_slot(15), (1, 7));
}

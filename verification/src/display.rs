//! The 320x240 RGB565 panel: its double buffer in SDRAM, the backlight cap,
//! the framebuffer layout and the panel timing.

use vstd::prelude::*;

verus! {

pub const WIDTH: usize = 320;

pub const HEIGHT: usize = 240;

/// Pixels in one frame.
pub const PIXELS: usize = 76800;

/// Distance between the two framebuffers: 256 KiB (a frame is 150 KiB).
pub const FB_STRIDE: usize = 0x40000;

/// Backlight PWM hard ceiling (boost-regulator thermal limit), in percent.
/// Every brightness request is clamped to it.
pub const MAX_BACKLIGHT_PCT: u8 = 35;

/// Panel timing, in pixel clocks (horizontal) and lines (vertical).
pub const H_SYNC: u16 = 1;

pub const H_BACK_PORCH: u16 = 42;

pub const H_FRONT_PORCH: u16 = 45;

pub const V_SYNC: u16 = 1;

pub const V_BACK_PORCH: u16 = 12;

pub const V_FRONT_PORCH: u16 = 10;

/// What the display state stands for: the address of the framebuffer on
/// screen, the address of the one drawn into, and the backlight duty.
pub struct DisplayView {
    pub front: int,
    pub back: int,
    pub backlight: int,
}

impl DisplayView {
    /// The state after a swap: the drawn buffer goes on screen.
    pub open spec fn swapped(self) -> DisplayView {
        DisplayView { front: self.back, back: self.front, backlight: self.backlight }
    }

    /// The state after a brightness request of `pct` percent.
    pub open spec fn with_backlight(self, pct: int) -> DisplayView {
        DisplayView {
            front: self.front,
            back: self.back,
            backlight: if pct < MAX_BACKLIGHT_PCT {
                pct
            } else {
                MAX_BACKLIGHT_PCT as int
            },
        }
    }
}

/// The double-buffer and backlight state of the panel.
pub struct Display {
    fb: [usize; 2],
    front: usize,
    backlight: u8,
}

impl View for Display {
    type V = DisplayView;

    closed spec fn view(&self) -> DisplayView {
        DisplayView {
            front: self.fb@[self.front as int] as int,
            back: self.fb@[1 - self.front] as int,
            backlight: self.backlight as int,
        }
    }
}

impl Display {
    #[verifier::type_invariant]
    spec fn inv(self) -> bool {
        &&& self.front < 2
        &&& self.fb@[1] == self.fb@[0] + FB_STRIDE
        &&& self.backlight <= MAX_BACKLIGHT_PCT
    }

    /// The state right after bring-up, with both buffers at `sdram_base` and
    /// `sdram_base + FB_STRIDE`: nothing presented yet, buffer 0 is the one
    /// the first [`Display::swap`] puts on screen, and the backlight is at
    /// the cap.
    pub fn new(sdram_base: usize) -> (r: Display)
        requires
            sdram_base + FB_STRIDE <= usize::MAX,
        ensures
            r@.back == sdram_base,
            r@.front == sdram_base + FB_STRIDE,
            r@.backlight == MAX_BACKLIGHT_PCT,
    {
        Display { fb: [sdram_base, sdram_base + FB_STRIDE], front: 1, backlight: MAX_BACKLIGHT_PCT }
    }

    /// The addresses of the two framebuffers.
    pub fn buffers(&self) -> (r: [usize; 2])
        ensures
            r@[1] == r@[0] + FB_STRIDE,
            (r@[0] == self@.front && r@[1] == self@.back) || (r@[1] == self@.front && r@[0]
                == self@.back),
    {
        proof {
            use_type_invariant(self);
        }
        self.fb
    }

    /// The address of the back buffer, the one drawing goes to. It is never
    /// the buffer on screen.
    pub fn target(&self) -> (r: usize)
        ensures
            r == self@.back,
            r != self@.front,
    {
        proof {
            use_type_invariant(self);
        }
        self.fb[1 - self.front]
    }

    /// Present the back buffer: returns its address, which the controller
    /// is to show from the next vertical blank on, and makes it the front.
    pub fn swap(&mut self) -> (presented: usize)
        ensures
            presented == old(self)@.back,
            final(self)@ == old(self)@.swapped(),
    {
        proof {
            use_type_invariant(&*self);
        }
        let back = 1 - self.front;
        self.front = back;
        self.fb[back]
    }

    /// Set the backlight brightness in percent, hard-clamped to
    /// [`MAX_BACKLIGHT_PCT`].
    pub fn set_backlight(&mut self, pct: u8)
        ensures
            final(self)@ == old(self)@.with_backlight(pct as int),
            final(self)@.backlight == if pct < MAX_BACKLIGHT_PCT {
                pct as int
            } else {
                MAX_BACKLIGHT_PCT as int
            },
    {
        proof {
            use_type_invariant(&*self);
        }
        self.backlight = if pct < MAX_BACKLIGHT_PCT {
            pct
        } else {
            MAX_BACKLIGHT_PCT
        };
    }

    /// The backlight duty to drive, in percent; never above the cap.
    pub fn backlight(&self) -> (r: u8)
        ensures
            r == self@.backlight,
            r <= MAX_BACKLIGHT_PCT,
    {
        proof {
            use_type_invariant(self);
        }
        self.backlight
    }
}

/// Where pixel `(x, y)` lives in a framebuffer, counted in pixels, if it is
/// on the panel.
pub open spec fn spec_pixel_offset(x: int, y: int) -> Option<int> {
    if 0 <= x < WIDTH && 0 <= y < HEIGHT {
        Some(y * WIDTH + x)
    } else {
        None
    }
}

/// Row-major offset of pixel `(x, y)`; `None` off the panel.
pub fn pixel_offset(x: i32, y: i32) -> (r: Option<usize>)
    ensures
        r matches Some(o) ==> spec_pixel_offset(x as int, y as int) == Some(o as int),
        r matches Some(o) ==> o == y * 320 + x,
        r is Some <==> (0 <= x < 320 && 0 <= y < 240),
        r is None ==> spec_pixel_offset(x as int, y as int) is None,
{
    if x >= 0 && y >= 0 && (x as usize) < WIDTH && (y as usize) < HEIGHT {
        Some(y as usize * WIDTH + x as usize)
    } else {
        None
    }
}

/// Paint one pixel of a frame; pixels off the panel are dropped.
pub fn draw_pixel(buf: &mut [u16], x: i32, y: i32, color: u16)
    requires
        old(buf)@.len() == PIXELS,
    ensures
        final(buf)@ == (match spec_pixel_offset(x as int, y as int) {
            Some(o) => old(buf)@.update(o, color),
            None => old(buf)@,
        }),
{
    match pixel_offset(x, y) {
        Some(o) => {
            buf[o] = color;
        },
        None => {},
    }
}

/// The framebuffer size reported to drawing code, `(width, height)`.
pub fn size() -> (r: (u32, u32))
    ensures
        r.0 == WIDTH,
        r.1 == HEIGHT,
{
    (320, 240)
}

/// GPIO alternate-function slot of pin `pin`: which of the two AFR
/// registers, and which 4-bit field in it.
pub fn alternate_function_slot(pin: usize) -> (r: (usize, usize))
    requires
        pin < 16,
    ensures
        r.0 == pin / 8,
        r.1 == pin % 8,
        r.0 < 2,
        r.1 < 8,
        r.0 * 8 + r.1 == pin,
{
    (pin / 8, pin % 8)
}

/// A swap puts the drawn buffer on screen and hands the shown one back for
/// drawing, leaving the backlight alone; two swaps put the display back as
/// it was.
pub proof fn lemma_swap_twice(v: DisplayView)
    ensures
        v.swapped().swapped() == v,
        v.swapped().front == v.back,
        v.swapped().back == v.front,
        v.swapped().backlight == v.backlight,
{
}

/// Whatever brightness is asked for, the duty is the smaller of the request
/// and the cap: a request within the cap is met exactly, one at or above it
/// gives the cap. The buffers are left alone.
pub proof fn lemma_backlight_capped(v: DisplayView, pct: int)
    ensures
        v.with_backlight(pct).backlight <= MAX_BACKLIGHT_PCT,
        0 <= pct <= MAX_BACKLIGHT_PCT ==> v.with_backlight(pct).backlight == pct,
        pct >= MAX_BACKLIGHT_PCT ==> v.with_backlight(pct).backlight == MAX_BACKLIGHT_PCT,
        v.with_backlight(pct).front == v.front,
        v.with_backlight(pct).back == v.back,
{
}

/// Every pixel of the 320x240 panel, and no other, has an offset, and it is
/// row-major: row `y` starts at `y * 320`, and `x` counts from there.
pub proof fn lemma_row_major(x: int, y: int)
    ensures
        (0 <= x < 320 && 0 <= y < 240) ==> spec_pixel_offset(x, y) == Some(y * 320 + x),
        !(0 <= x < 320 && 0 <= y < 240) ==> spec_pixel_offset(x, y) is None,
{
}

/// Only pixels on the 320x240 panel have an offset, and it is row-major:
/// row `y` starts at `y * 320`, and `x` counts from there. Every on-panel
/// pixel has its own offset inside the frame, and a frame fits in the stride,
/// so the two buffers never overlap.
pub proof fn lemma_frame_layout(x1: int, y1: int, x2: int, y2: int)
    requires
        spec_pixel_offset(x1, y1) is Some,
        spec_pixel_offset(x2, y2) is Some,
    ensures
        spec_pixel_offset(x1, y1) == Some(y1 * 320 + x1),
        0 <= x1 < 320 && 0 <= y1 < 240,
        0 <= spec_pixel_offset(x1, y1)->0 < PIXELS,
        spec_pixel_offset(x1, y1) == spec_pixel_offset(x2, y2) ==> x1 == x2 && y1 == y2,
        PIXELS == WIDTH * HEIGHT,
        2 * PIXELS <= FB_STRIDE,
{
}

} // verus!

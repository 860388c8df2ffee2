//! The settings window as a window: the size it remembers, where it opens, the
//! smallest size it can be dragged to, and what each of its messages is.

use super::layout::{max_int, clamp_int};
use crate::geometry::{Rect, UiRect, div_toward_zero, fits_i32, scale, spec_scale};
use vstd::prelude::*;

verus! {

/// Width the settings window opens with when it remembers none.
pub const DEFAULT_WIDTH: i32 = 1100;
/// Height the settings window opens with when it remembers none.
pub const DEFAULT_HEIGHT: i32 = 720;
/// Logical width the window cannot be made narrower than.
pub const MIN_WIDTH: i32 = 620;
/// Logical height the window cannot be made lower than.
pub const MIN_HEIGHT: i32 = 460;
/// Device pixels kept free around the window on the work area.
pub const WORK_AREA_MARGIN: i32 = 48;

/// The size of the settings window, in logical units.
#[derive(Clone, Copy, Debug, PartialEq, Eq, Structural)]
pub struct WindowSize {
    pub width: i32,
    pub height: i32,
}

/// The registry values in which the window size is remembered.
pub struct WindowSizeStore;

impl WindowSizeStore {
    /// The remembered size from the stored values, each read as a 32-bit value
    /// where present; the default size for a missing one.
    pub fn load(width: Option<u32>, height: Option<u32>) -> (r: WindowSize)
        ensures
            r.width == (match width {
                Some(w) => w as i32,
                None => DEFAULT_WIDTH,
            }),
            r.height == (match height {
                Some(h) => h as i32,
                None => DEFAULT_HEIGHT,
            }),
    {
        WindowSize {
            width: match width {
                Some(w) => w as i32,
                None => DEFAULT_WIDTH,
            },
            height: match height {
                Some(h) => h as i32,
                None => DEFAULT_HEIGHT,
            },
        }
    }

    /// The values to store for `size`: each side at least 1.
    pub fn save(size: WindowSize) -> (r: (u32, u32))
        ensures
            r.0 == max_int(size.width as int, 1),
            r.1 == max_int(size.height as int, 1),
    {
        let width = if size.width >= 1 { size.width } else { 1 };
        let height = if size.height >= 1 { size.height } else { 1 };
        (width as u32, height as u32)
    }
}

/// One side of the window: the remembered length at `dpi`, held between the
/// smallest length and the work area less its margin (never below the smallest).
pub open spec fn spec_window_side(remembered: int, minimum: int, work: int, dpi: int) -> int {
    let smallest = spec_scale(minimum, dpi);
    clamp_int(spec_scale(remembered, dpi), smallest, max_int(work - WORK_AREA_MARGIN, smallest))
}

/// A side of the opening window is never shorter than its smallest length at
/// the dpi, and never longer than the work area less its margin unless that is
/// shorter than the smallest length.
pub proof fn lemma_window_side_bounds(remembered: int, minimum: int, work: int, dpi: int)
    ensures
        spec_window_side(remembered, minimum, work, dpi) >= spec_scale(minimum, dpi),
        spec_window_side(remembered, minimum, work, dpi) <= max_int(work - WORK_AREA_MARGIN, spec_scale(minimum, dpi)),
{
}

/// Where the window opens: `remembered` scaled to the monitor's dpi and kept
/// on its work area `work`, centred there; as left, top, width and height.
pub open spec fn spec_window_bounds(work: Rect, remembered: WindowSize, dpi_x: int, dpi_y: int) -> (int, int, int, int) {
    let work_width = work.right - work.left;
    let work_height = work.bottom - work.top;
    let width = spec_window_side(remembered.width as int, MIN_WIDTH as int, work_width, dpi_x);
    let height = spec_window_side(remembered.height as int, MIN_HEIGHT as int, work_height, dpi_y);
    (work.left + div_toward_zero(work_width - width, 2), work.top + div_toward_zero(work_height - height, 2), width, height)
}

/// Every value the placement of the window computes is an `i32`.
pub open spec fn window_bounds_fit(work: Rect, remembered: WindowSize, dpi_x: int, dpi_y: int) -> bool {
    let work_width = work.right - work.left;
    let work_height = work.bottom - work.top;
    let width = spec_window_side(remembered.width as int, MIN_WIDTH as int, work_width, dpi_x);
    let height = spec_window_side(remembered.height as int, MIN_HEIGHT as int, work_height, dpi_y);
    &&& fits_i32(remembered.width * dpi_x)
    &&& fits_i32(remembered.height * dpi_y)
    &&& fits_i32(MIN_WIDTH * dpi_x)
    &&& fits_i32(MIN_HEIGHT * dpi_y)
    &&& fits_i32(work_width)
    &&& fits_i32(work_height)
    &&& fits_i32(work_width - WORK_AREA_MARGIN)
    &&& fits_i32(work_height - WORK_AREA_MARGIN)
    &&& fits_i32(work_width - width)
    &&& fits_i32(work_height - height)
    &&& fits_i32(work.left + div_toward_zero(work_width - width, 2))
    &&& fits_i32(work.top + div_toward_zero(work_height - height, 2))
}

fn window_side(remembered: i32, minimum: i32, work: i32, dpi: i32) -> (r: i32)
    requires
        fits_i32(remembered * dpi),
        fits_i32(minimum * dpi),
        fits_i32(work - WORK_AREA_MARGIN),
    ensures
        r == spec_window_side(remembered as int, minimum as int, work as int, dpi as int),
{
    let smallest = scale(minimum, dpi);
    let largest = if work - WORK_AREA_MARGIN >= smallest { work - WORK_AREA_MARGIN } else { smallest };
    let wanted = scale(remembered, dpi);
    if wanted < smallest {
        smallest
    } else if wanted > largest {
        largest
    } else {
        wanted
    }
}

/// The left, top, width and height the settings window opens with on a
/// monitor with work area `work` and dpi `dpi_x` by `dpi_y`.
pub fn settings_window_bounds(work: Rect, remembered: WindowSize, dpi_x: i32, dpi_y: i32) -> (r: (i32, i32, i32, i32))
    requires
        window_bounds_fit(work, remembered, dpi_x as int, dpi_y as int),
    ensures
        (r.0 as int, r.1 as int, r.2 as int, r.3 as int) == spec_window_bounds(work, remembered, dpi_x as int, dpi_y as int),
{
    let work_width = work.right - work.left;
    let work_height = work.bottom - work.top;
    let width = window_side(remembered.width, MIN_WIDTH, work_width, dpi_x);
    let height = window_side(remembered.height, MIN_HEIGHT, work_height, dpi_y);
    let x = work.left + (work_width - width) / 2;
    let y = work.top + (work_height - height) / 2;
    (x, y, width, height)
}

/// Whether every value the placement of the window computes is an `i32`.
pub fn window_bounds_fits(work: Rect, remembered: WindowSize, dpi_x: i32, dpi_y: i32) -> (r: bool)
    ensures
        r == window_bounds_fit(work, remembered, dpi_x as int, dpi_y as int),
{
    let low = i32::MIN as i64;
    let high = i32::MAX as i64;
    let in_range = |value: i64| -> (b: bool)
        ensures
            b == fits_i32(value as int),
        { low <= value && value <= high };
    proof {
        assert(-2147483648 * 2147483648 <= remembered.width * dpi_x <= 2147483648 * 2147483648) by (nonlinear_arith)
            requires
                -2147483648 <= remembered.width <= 2147483647,
                -2147483648 <= dpi_x <= 2147483647,
        ;
        assert(-2147483648 * 2147483648 <= remembered.height * dpi_y <= 2147483648 * 2147483648) by (nonlinear_arith)
            requires
                -2147483648 <= remembered.height <= 2147483647,
                -2147483648 <= dpi_y <= 2147483647,
        ;
        assert(-620 * 2147483648 <= 620 * dpi_x <= 620 * 2147483648) by (nonlinear_arith)
            requires
                -2147483648 <= dpi_x <= 2147483647,
        ;
        assert(-460 * 2147483648 <= 460 * dpi_y <= 460 * 2147483648) by (nonlinear_arith)
            requires
                -2147483648 <= dpi_y <= 2147483647,
        ;
    }
    let work_width = work.right as i64 - work.left as i64;
    let work_height = work.bottom as i64 - work.top as i64;
    if !in_range(remembered.width as i64 * dpi_x as i64) || !in_range(remembered.height as i64 * dpi_y as i64)
        || !in_range(MIN_WIDTH as i64 * dpi_x as i64) || !in_range(MIN_HEIGHT as i64 * dpi_y as i64) || !in_range(
        work_width,
    ) || !in_range(work_height) || !in_range(work_width - 48) || !in_range(work_height - 48) {
        return false;
    }
    let width = window_side(remembered.width, MIN_WIDTH, work_width as i32, dpi_x) as i64;
    let height = window_side(remembered.height, MIN_HEIGHT, work_height as i32, dpi_y) as i64;
    in_range(work_width - width) && in_range(work_height - height) && in_range(work.left as i64 + (work_width - width) / 2)
        && in_range(work.top as i64 + (work_height - height) / 2)
}

/// The smallest size the window can be dragged to at `dpi`, in device pixels.
pub fn min_track_size(dpi: i32) -> (r: (i32, i32))
    requires
        fits_i32(MIN_WIDTH * dpi),
    ensures
        r == (spec_scale(MIN_WIDTH as int, dpi as int) as i32, spec_scale(MIN_HEIGHT as int, dpi as int) as i32),
{
    proof {
        assert(fits_i32(MIN_HEIGHT * dpi)) by (nonlinear_arith)
            requires
                fits_i32(620 * dpi),
                MIN_HEIGHT == 460,
        ;
    }
    (scale(MIN_WIDTH, dpi), scale(MIN_HEIGHT, dpi))
}

/// Window message numbers the settings window answers.
pub const WM_DESTROY: u32 = 0x0002;
pub const WM_SIZE: u32 = 0x0005;
pub const WM_PAINT: u32 = 0x000F;
pub const WM_CLOSE: u32 = 0x0010;
pub const WM_ERASEBKGND: u32 = 0x0014;
pub const WM_SETTINGCHANGE: u32 = 0x001A;
pub const WM_GETMINMAXINFO: u32 = 0x0024;
pub const WM_NCDESTROY: u32 = 0x0082;
pub const WM_MOUSEMOVE: u32 = 0x0200;
pub const WM_LBUTTONDOWN: u32 = 0x0201;
pub const WM_LBUTTONUP: u32 = 0x0202;
pub const WM_MOUSEWHEEL: u32 = 0x020A;
pub const WM_CAPTURECHANGED: u32 = 0x0215;
pub const WM_EXITSIZEMOVE: u32 = 0x0232;
pub const WM_DPICHANGED: u32 = 0x02E0;
/// The message that asks the window to show itself.
pub const WM_SHOW_SETTINGS: u32 = 0x8000 + 50;

/// What a message to the settings window is.
#[derive(Clone, Copy, Debug, PartialEq, Eq, Structural)]
pub enum SettingsMessage {
    Show,
    Close,
    PointerDown(i32, i32),
    PointerMove(i32, i32),
    PointerUp(i32, i32),
    CaptureChanged,
    Paint,
    Size,
    ExitSizeMove,
    MouseWheel(i32),
    GetMinMaxInfo,
    SettingChange,
    DpiChanged,
    EraseBackground,
    Destroy,
    NcDestroy,
    Other,
}

/// The client coordinates packed into the low and high words of `lparam`.
pub open spec fn spec_point(lparam: isize) -> (i32, i32) {
    ((lparam as i16) as i32, ((lparam >> 16u32) as i16) as i32)
}

/// The signed wheel distance packed into the high word of `wparam`.
pub open spec fn spec_wheel_delta(wparam: usize) -> i32 {
    ((wparam >> 16u32) as i16) as i32
}

pub fn point_from_lparam(lparam: isize) -> (r: (i32, i32))
    ensures
        r == spec_point(lparam),
{
    (lparam as i16 as i32, (lparam >> 16u32) as i16 as i32)
}

pub fn wheel_delta(wparam: usize) -> (r: i32)
    ensures
        r == spec_wheel_delta(wparam),
{
    (wparam >> 16u32) as i16 as i32
}

pub open spec fn spec_classify(message: u32, wparam: usize, lparam: isize) -> SettingsMessage {
    let (x, y) = spec_point(lparam);
    if message == WM_SHOW_SETTINGS {
        SettingsMessage::Show
    } else if message == WM_CLOSE {
        SettingsMessage::Close
    } else if message == WM_LBUTTONDOWN {
        SettingsMessage::PointerDown(x, y)
    } else if message == WM_MOUSEMOVE {
        SettingsMessage::PointerMove(x, y)
    } else if message == WM_LBUTTONUP {
        SettingsMessage::PointerUp(x, y)
    } else if message == WM_CAPTURECHANGED {
        SettingsMessage::CaptureChanged
    } else if message == WM_PAINT {
        SettingsMessage::Paint
    } else if message == WM_SIZE {
        SettingsMessage::Size
    } else if message == WM_EXITSIZEMOVE {
        SettingsMessage::ExitSizeMove
    } else if message == WM_MOUSEWHEEL {
        SettingsMessage::MouseWheel(spec_wheel_delta(wparam))
    } else if message == WM_GETMINMAXINFO {
        SettingsMessage::GetMinMaxInfo
    } else if message == WM_SETTINGCHANGE {
        SettingsMessage::SettingChange
    } else if message == WM_DPICHANGED {
        SettingsMessage::DpiChanged
    } else if message == WM_ERASEBKGND {
        SettingsMessage::EraseBackground
    } else if message == WM_DESTROY {
        SettingsMessage::Destroy
    } else if message == WM_NCDESTROY {
        SettingsMessage::NcDestroy
    } else {
        SettingsMessage::Other
    }
}

/// What the message `message` with parameters `wparam` and `lparam` is.
pub fn classify_settings_message(message: u32, wparam: usize, lparam: isize) -> (r: SettingsMessage)
    ensures
        r == spec_classify(message, wparam, lparam),
{
    let (x, y) = point_from_lparam(lparam);
    if message == WM_SHOW_SETTINGS {
        SettingsMessage::Show
    } else if message == WM_CLOSE {
        SettingsMessage::Close
    } else if message == WM_LBUTTONDOWN {
        SettingsMessage::PointerDown(x, y)
    } else if message == WM_MOUSEMOVE {
        SettingsMessage::PointerMove(x, y)
    } else if message == WM_LBUTTONUP {
        SettingsMessage::PointerUp(x, y)
    } else if message == WM_CAPTURECHANGED {
        SettingsMessage::CaptureChanged
    } else if message == WM_PAINT {
        SettingsMessage::Paint
    } else if message == WM_SIZE {
        SettingsMessage::Size
    } else if message == WM_EXITSIZEMOVE {
        SettingsMessage::ExitSizeMove
    } else if message == WM_MOUSEWHEEL {
        SettingsMessage::MouseWheel(wheel_delta(wparam))
    } else if message == WM_GETMINMAXINFO {
        SettingsMessage::GetMinMaxInfo
    } else if message == WM_SETTINGCHANGE {
        SettingsMessage::SettingChange
    } else if message == WM_DPICHANGED {
        SettingsMessage::DpiChanged
    } else if message == WM_ERASEBKGND {
        SettingsMessage::EraseBackground
    } else if message == WM_DESTROY {
        SettingsMessage::Destroy
    } else if message == WM_NCDESTROY {
        SettingsMessage::NcDestroy
    } else {
        SettingsMessage::Other
    }
}

/// What the window procedure returns once it handled `message`: `Some` value
/// to return, or `None` to pass the message on to the default procedure.
pub fn message_result(message: SettingsMessage) -> (r: Option<isize>)
    ensures
        r == (match message {
            SettingsMessage::EraseBackground => Some(1isize),
            SettingsMessage::NcDestroy | SettingsMessage::Other => None,
            _ => Some(0isize),
        }),
{
    match message {
        SettingsMessage::EraseBackground => Some(1),
        SettingsMessage::NcDestroy | SettingsMessage::Other => None,
        _ => Some(0),
    }
}

} // verus!

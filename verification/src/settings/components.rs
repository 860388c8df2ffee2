//! Where the parts of the controls of a setting row are, inside the control
//! area that the page layout gives the row.

use super::layout::{CONTROL_PART_LIMIT, device_coordinate_ok, device_rect_ok, dpi_ok, max_int, min_int, clamp_int};
use crate::geometry::{Rect, UiRect, div_toward_zero, fits_i32, scale, spec_scale};
use vstd::prelude::*;

verus! {

/// Logical width of the button of a button row.
pub const INLINE_BUTTON_WIDTH: i32 = 116;
/// Logical height of the button of a button row.
pub const INLINE_BUTTON_HEIGHT: i32 = 32;
/// Logical width of the drop-down box of a choice row.
pub const CHOICE_CONTROL_WIDTH: i32 = 116;
/// Logical height of the drop-down box of a choice row.
pub const CHOICE_CONTROL_HEIGHT: i32 = 32;
/// Logical width of a switch.
pub const SWITCH_CONTROL_WIDTH: i32 = 50;
/// Logical height of a switch.
pub const SWITCH_CONTROL_HEIGHT: i32 = 24;
/// Logical width of the state label left of a switch.
pub const SWITCH_LABEL_WIDTH: i32 = 36;
/// Logical gap between the state label and the switch.
pub const SWITCH_LABEL_GAP: i32 = 10;
/// Logical width kept on each side of a slider track for its end labels.
pub const SLIDER_LABEL_AREA_WIDTH: i32 = 64;
/// Logical padding inside a sidebar entry.
pub const SIDEBAR_CONTENT_PADDING: i32 = 12;
/// Logical size of a sidebar icon.
pub const SIDEBAR_ICON_SIZE: i32 = 20;
/// Logical gap between a sidebar icon and its label.
pub const SIDEBAR_ICON_TEXT_GAP: i32 = 10;
/// Logical width of the accent bar of a selected entry.
pub const ACCENT_WIDTH: i32 = 4;
/// Logical height of the accent bar of a selected entry.
pub const ACCENT_HEIGHT: i32 = 20;

/// A box of `width` by `height` logical units at the right edge of `control`,
/// centred vertically, shrunk to the control where the control is smaller.
pub open spec fn spec_control_bounds(control: Rect, dpi: int, width: int, height: int) -> Rect {
    let w = min_int(spec_scale(width, dpi), control.right - control.left);
    let h = min_int(spec_scale(height, dpi), control.bottom - control.top);
    let top = div_toward_zero(control.top + control.bottom, 2) - div_toward_zero(h, 2);
    Rect { left: (control.right - w) as i32, top: top as i32, right: control.right, bottom: (top + h) as i32 }
}

proof fn lemma_small_scale(value: int, dpi: int)
    requires
        0 <= value <= 116,
        dpi_ok(dpi),
    ensures
        fits_i32(value * dpi),
        -22369622 <= spec_scale(value, dpi) <= 22369622,
{
    if dpi >= 0 {
        assert(0 <= value * dpi <= 116 * dpi) by (nonlinear_arith)
            requires
                0 <= value <= 116,
                dpi >= 0,
        ;
    } else {
        assert(116 * dpi <= value * dpi <= 0) by (nonlinear_arith)
            requires
                0 <= value <= 116,
                dpi < 0,
        ;
    }
    lemma_scale_bounded(value * dpi);
}

/// A product that fits in `i32`, divided by 96, lies within 22369622 of zero.
proof fn lemma_scale_bounded(product: int)
    requires
        fits_i32(product),
    ensures
        -22369622 <= div_toward_zero(product, 96) <= 22369622,
{
    if product >= 0 {
        assert(product / 96 <= 22369622) by (nonlinear_arith)
            requires
                0 <= product <= 2147483647,
        ;
    } else {
        assert((-product) / 96 <= 22369622) by (nonlinear_arith)
            requires
                0 < -product <= 2147483648,
        ;
    }
}

fn control_bounds(control: Rect, dpi: i32, width: i32, height: i32) -> (r: Rect)
    requires
        device_rect_ok(control),
        dpi_ok(dpi as int),
        0 <= width <= CONTROL_PART_LIMIT,
        0 <= height <= CONTROL_PART_LIMIT,
    ensures
        r == spec_control_bounds(control, dpi as int, width as int, height as int),
{
    proof {
        lemma_small_scale(width as int, dpi as int);
        lemma_small_scale(height as int, dpi as int);
    }
    let area = UiRect::from(control);
    let scaled_width = scale(width, dpi);
    let scaled_height = scale(height, dpi);
    let w = if scaled_width <= area.width() { scaled_width } else { area.width() };
    let h = if scaled_height <= area.height() { scaled_height } else { area.height() };
    let top = area.center_y() - h / 2;
    UiRect::new(area.right - w, top, area.right, top + h).to_rect()
}

/// The button of a button row.
pub fn setting_button_bounds(control: Rect, dpi: i32) -> (r: Rect)
    requires
        device_rect_ok(control),
        dpi_ok(dpi as int),
    ensures
        r == spec_control_bounds(control, dpi as int, INLINE_BUTTON_WIDTH as int, INLINE_BUTTON_HEIGHT as int),
{
    control_bounds(control, dpi, INLINE_BUTTON_WIDTH, INLINE_BUTTON_HEIGHT)
}

/// Whether `(x, y)` is on the button of a button row.
pub fn setting_button_contains(control: Rect, dpi: i32, x: i32, y: i32) -> (r: bool)
    requires
        device_rect_ok(control),
        dpi_ok(dpi as int),
    ensures
        r == spec_control_bounds(control, dpi as int, INLINE_BUTTON_WIDTH as int, INLINE_BUTTON_HEIGHT as int).spec_contains(x as int, y as int),
{
    UiRect::from(setting_button_bounds(control, dpi)).contains(x, y)
}

/// The drop-down box of a choice row.
pub fn choice_control_bounds(control: Rect, dpi: i32) -> (r: Rect)
    requires
        device_rect_ok(control),
        dpi_ok(dpi as int),
    ensures
        r == spec_control_bounds(control, dpi as int, CHOICE_CONTROL_WIDTH as int, CHOICE_CONTROL_HEIGHT as int),
{
    control_bounds(control, dpi, CHOICE_CONTROL_WIDTH, CHOICE_CONTROL_HEIGHT)
}

/// Whether `(x, y)` is on the drop-down box of a choice row.
pub fn choice_control_contains(control: Rect, dpi: i32, x: i32, y: i32) -> (r: bool)
    requires
        device_rect_ok(control),
        dpi_ok(dpi as int),
    ensures
        r == spec_control_bounds(control, dpi as int, CHOICE_CONTROL_WIDTH as int, CHOICE_CONTROL_HEIGHT as int).spec_contains(x as int, y as int),
{
    UiRect::from(choice_control_bounds(control, dpi)).contains(x, y)
}

/// The switch of a switch row.
pub fn switch_control_bounds(control: Rect, dpi: i32) -> (r: Rect)
    requires
        device_rect_ok(control),
        dpi_ok(dpi as int),
    ensures
        r == spec_control_bounds(control, dpi as int, SWITCH_CONTROL_WIDTH as int, SWITCH_CONTROL_HEIGHT as int),
{
    control_bounds(control, dpi, SWITCH_CONTROL_WIDTH, SWITCH_CONTROL_HEIGHT)
}

/// The area of a switch that answers the pointer: the switch and its state label.
pub open spec fn spec_switch_hit_area(control: Rect, dpi: int) -> Rect {
    let area = spec_control_bounds(control, dpi, SWITCH_CONTROL_WIDTH as int, SWITCH_CONTROL_HEIGHT as int);
    Rect {
        left: (area.left - spec_scale((SWITCH_LABEL_GAP + SWITCH_LABEL_WIDTH) as int, dpi)) as i32,
        ..area
    }
}

/// Whether `(x, y)` is on a switch or on its state label.
pub fn switch_control_contains(control: Rect, dpi: i32, x: i32, y: i32) -> (r: bool)
    requires
        device_rect_ok(control),
        dpi_ok(dpi as int),
    ensures
        r == spec_switch_hit_area(control, dpi as int).spec_contains(x as int, y as int),
{
    proof {
        lemma_small_scale((SWITCH_LABEL_GAP + SWITCH_LABEL_WIDTH) as int, dpi as int);
        lemma_small_scale(SWITCH_CONTROL_WIDTH as int, dpi as int);
    }
    let area = UiRect::from(switch_control_bounds(control, dpi));
    UiRect::new(area.left - scale(SWITCH_LABEL_GAP + SWITCH_LABEL_WIDTH, dpi), area.top, area.right, area.bottom).contains(x, y)
}

/// The left and right ends of a slider track inside its control area.
pub fn slider_track_bounds(control: Rect, dpi: i32) -> (r: (i32, i32))
    requires
        device_rect_ok(control),
        dpi_ok(dpi as int),
    ensures
        r.0 == control.left + spec_scale(SLIDER_LABEL_AREA_WIDTH as int, dpi as int),
        r.1 == control.right - spec_scale(SLIDER_LABEL_AREA_WIDTH as int, dpi as int),
{
    proof {
        lemma_small_scale(SLIDER_LABEL_AREA_WIDTH as int, dpi as int);
    }
    let label_width = scale(SLIDER_LABEL_AREA_WIDTH, dpi);
    (control.left + label_width, control.right - label_width)
}

/// Where the value bubble of a dragged slider goes: above the thumb, as wide as
/// its text needs, and kept over the track.
pub open spec fn spec_slider_popup_area(
    value_chars: int,
    track_left: int,
    track_right: int,
    thumb_x: int,
    track_y: int,
    dpi: int,
) -> UiRect {
    let width = spec_scale(max_int(value_chars * 8 + 22, 50), dpi);
    let height = spec_scale(30, dpi);
    let left = clamp_int(thumb_x - div_toward_zero(width, 2), track_left, max_int(track_right - width, track_left));
    let bottom = track_y - spec_scale(11, dpi);
    UiRect { left: left as i32, top: (bottom - height) as i32, right: (left + width) as i32, bottom: bottom as i32 }
}

/// The value bubble shown above a slider while it is dragged; `value_chars` is
/// the number of characters of the value it shows.
pub fn slider_popup_area(
    value_chars: usize,
    track_left: i32,
    track_right: i32,
    thumb_x: i32,
    track_y: i32,
    dpi: i32,
) -> (r: UiRect)
    requires
        value_chars * 8 + 22 <= i32::MAX,
        fits_i32(max_int(value_chars * 8 + 22, 50) * dpi),
        device_coordinate_ok(track_left as int),
        device_coordinate_ok(track_right as int),
        device_coordinate_ok(thumb_x as int),
        device_coordinate_ok(track_y as int),
    ensures
        r == spec_slider_popup_area(
            value_chars as int,
            track_left as int,
            track_right as int,
            thumb_x as int,
            track_y as int,
            dpi as int,
        ),
{
    let logical = value_chars as i32 * 8 + 22;
    let logical = if logical >= 50 { logical } else { 50 };
    proof {
        let l = logical as int;
        if dpi >= 0 {
            assert(0 <= 11 * dpi <= 30 * dpi <= l * dpi) by (nonlinear_arith)
                requires
                    50 <= l,
                    dpi >= 0,
            ;
        } else {
            assert(l * dpi <= 30 * dpi <= 11 * dpi <= 0) by (nonlinear_arith)
                requires
                    50 <= l,
                    dpi < 0,
            ;
        }
        lemma_scale_bounded(l * dpi);
        lemma_scale_bounded(30 * dpi);
        lemma_scale_bounded(11 * dpi);
    }
    let width = scale(logical, dpi);
    let height = scale(30, dpi);
    let high = if track_right - width >= track_left { track_right - width } else { track_left };
    let wanted = thumb_x - width / 2;
    let left = if wanted < track_left { track_left } else if wanted > high { high } else { wanted };
    let bottom = track_y - scale(11, dpi);
    UiRect::new(left, bottom - height, left + width, bottom)
}

/// The parts of a sidebar entry: the accent bar of a selected entry, the icon
/// and the label.
#[derive(Clone, Copy, Debug, PartialEq, Eq, Structural)]
pub struct SidebarItemGeometry {
    pub accent: UiRect,
    pub icon: UiRect,
    pub text: UiRect,
}

pub open spec fn spec_sidebar_item_geometry(area: UiRect, dpi: int) -> SidebarItemGeometry {
    let padding = spec_scale(SIDEBAR_CONTENT_PADDING as int, dpi);
    let icon_size = spec_scale(SIDEBAR_ICON_SIZE as int, dpi);
    let center_y = div_toward_zero(area.top + area.bottom, 2);
    let icon_left = area.left + padding;
    let icon_top = center_y - div_toward_zero(icon_size, 2);
    let accent_width = spec_scale(ACCENT_WIDTH as int, dpi);
    let accent_height = spec_scale(ACCENT_HEIGHT as int, dpi);
    let accent_top = center_y - div_toward_zero(accent_height, 2);
    let icon_right = icon_left + icon_size;
    SidebarItemGeometry {
        accent: UiRect {
            left: area.left,
            top: accent_top as i32,
            right: (area.left + accent_width) as i32,
            bottom: (accent_top + accent_height) as i32,
        },
        icon: UiRect {
            left: icon_left as i32,
            top: icon_top as i32,
            right: icon_right as i32,
            bottom: (icon_top + icon_size) as i32,
        },
        text: UiRect {
            left: (icon_right + spec_scale(SIDEBAR_ICON_TEXT_GAP as int, dpi)) as i32,
            top: area.top,
            right: (area.right - padding) as i32,
            bottom: area.bottom,
        },
    }
}

impl SidebarItemGeometry {
    /// Lays out the parts of the sidebar entry that covers `area`.
    pub fn calculate(area: UiRect, dpi: i32) -> (r: Self)
        requires
            device_coordinate_ok(area.left as int),
            device_coordinate_ok(area.top as int),
            device_coordinate_ok(area.right as int),
            device_coordinate_ok(area.bottom as int),
            dpi_ok(dpi as int),
        ensures
            r == spec_sidebar_item_geometry(area, dpi as int),
    {
        proof {
            lemma_small_scale(SIDEBAR_CONTENT_PADDING as int, dpi as int);
            lemma_small_scale(SIDEBAR_ICON_SIZE as int, dpi as int);
            lemma_small_scale(ACCENT_WIDTH as int, dpi as int);
            lemma_small_scale(ACCENT_HEIGHT as int, dpi as int);
            lemma_small_scale(SIDEBAR_ICON_TEXT_GAP as int, dpi as int);
        }
        let padding = scale(SIDEBAR_CONTENT_PADDING, dpi);
        let icon_size = scale(SIDEBAR_ICON_SIZE, dpi);
        let center_y = area.center_y();
        let icon_left = area.left + padding;
        let icon_top = center_y - icon_size / 2;
        let icon = UiRect::new(icon_left, icon_top, icon_left + icon_size, icon_top + icon_size);
        let accent_width = scale(ACCENT_WIDTH, dpi);
        let accent_height = scale(ACCENT_HEIGHT, dpi);
        let accent_top = center_y - accent_height / 2;
        let accent = UiRect::new(area.left, accent_top, area.left + accent_width, accent_top + accent_height);
        let text = UiRect::new(icon.right + scale(SIDEBAR_ICON_TEXT_GAP, dpi), area.top, area.right - padding, area.bottom);
        SidebarItemGeometry { accent, icon, text }
    }
}

} // verus!

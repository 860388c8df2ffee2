//! Where the parts of the settings page go, in device pixels, for a given client
//! area, dpi and scroll position. All measures are logical units (96 dpi) until
//! they are scaled into device rectangles.

use super::action::{ActionId, ActionLayout};
use super::item::{ControlKind, SettingId, SettingItem, SettingItemLayout};
use super::section::{SectionId, SectionLayout, SettingSection, SettingSubSection, SubSectionLayout};
use super::{SettingsUi, SidebarItem, SidebarItemId};
use crate::geometry::{
    Rect, UiRect, div_toward_zero, fits_i32, logical_rect, spec_logical_rect, spec_unscale, unscale,
};
use vstd::prelude::*;

verus! {

pub const EXPANDED_SIDEBAR_WIDTH: i32 = 246;
pub const COMPACT_SIDEBAR_WIDTH: i32 = 118;
pub const CONTENT_MARGIN: i32 = 32;
pub const HEADER_HEIGHT: i32 = 74;
pub const FOOTER_HEIGHT: i32 = 68;
pub const SECTION_HEIGHT: i32 = 38;
pub const ROW_HEIGHT: i32 = 64;
pub const STACKED_ROW_HEIGHT: i32 = 128;
pub const ROW_GAP: i32 = 4;
pub const SECTION_GAP: i32 = 24;
pub const BODY_BOTTOM_PADDING: i32 = 28;
pub const SIDEBAR_MAIN_TOP: i32 = 88;
pub const SIDEBAR_ITEM_WIDTH: i32 = 256;
pub const SIDEBAR_ITEM_HEIGHT: i32 = 36;
pub const SIDEBAR_ITEM_GAP: i32 = 4;
pub const SIDEBAR_BOTTOM_MARGIN: i32 = 20;
pub const SCROLLBAR_MARGIN: i32 = 9;
pub const SCROLLBAR_WIDTH: i32 = 4;
pub const SCROLLBAR_MIN_THUMB: i32 = 42;

/// Logical size of the widest part of a control: the button and the drop-down box.
pub const CONTROL_PART_LIMIT: i32 = 116;
/// Largest device coordinate a laid-out rectangle may have.
pub const DEVICE_LIMIT: i32 = 50000000;

#[derive(Clone, Copy, Debug)]
pub struct SidebarItemLayout {
    pub id: SidebarItemId,
    pub area: Rect,
    pub icon: &'static str,
    pub selected: bool,
}

pub struct SidebarLayout {
    pub bounds: Rect,
    pub title: Rect,
    pub main: Vec<SidebarItemLayout>,
    pub bottom: Vec<SidebarItemLayout>,
    pub expanded: bool,
}

#[derive(Clone, Copy, Debug, PartialEq, Eq, Structural)]
pub struct ScrollbarLayout {
    pub track: Rect,
    pub thumb: Rect,
}

pub struct ContentLayout {
    pub bounds: Rect,
    pub page_title: Rect,
    pub viewport: Rect,
    pub sections: Vec<SectionLayout>,
    pub sub_sections: Vec<SubSectionLayout>,
    pub scrollbar: Option<ScrollbarLayout>,
    pub scroll_max: i32,
}

pub struct FooterLayout {
    pub bounds: Rect,
    pub actions: Vec<ActionLayout>,
}

pub struct SettingsUiLayout {
    pub sidebar: SidebarLayout,
    pub content: ContentLayout,
    pub footer: FooterLayout,
}

pub open spec fn max_int(a: int, b: int) -> int {
    if a >= b {
        a
    } else {
        b
    }
}

pub open spec fn min_int(a: int, b: int) -> int {
    if a <= b {
        a
    } else {
        b
    }
}

pub open spec fn clamp_int(value: int, low: int, high: int) -> int {
    if value < low {
        low
    } else if value > high {
        high
    } else {
        value
    }
}

/// The parts of the controls scale to `dpi` within `i32`: the widest of them,
/// `CONTROL_PART_LIMIT` logical units, does.
pub open spec fn dpi_ok(dpi: int) -> bool {
    fits_i32(CONTROL_PART_LIMIT * dpi)
}

/// Whether the parts of the controls scale to `dpi` within `i32`.
pub fn control_dpi_ok(dpi: i32) -> (r: bool)
    ensures
        r == dpi_ok(dpi as int),
{
    proof {
        assert(-116 * 2147483648 <= 116 * dpi <= 116 * 2147483648) by (nonlinear_arith)
            requires
                -2147483648 <= dpi <= 2147483647,
        ;
    }
    let product = CONTROL_PART_LIMIT as i64 * dpi as i64;
    i32::MIN as i64 <= product && product <= i32::MAX as i64
}

pub open spec fn device_coordinate_ok(value: int) -> bool {
    -DEVICE_LIMIT <= value <= DEVICE_LIMIT
}

/// The device rectangle has coordinates the control geometry computes with.
pub open spec fn device_rect_ok(rect: Rect) -> bool {
    &&& device_coordinate_ok(rect.left as int)
    &&& device_coordinate_ok(rect.top as int)
    &&& device_coordinate_ok(rect.right as int)
    &&& device_coordinate_ok(rect.bottom as int)
}

/// Every row of `items` has its control within the device coordinate range.
pub open spec fn rows_ok(items: Seq<SettingItemLayout>) -> bool {
    forall|j: int| 0 <= j < items.len() ==> device_rect_ok((#[trigger] items[j]).control)
}

/// The device rectangle of logical edges.
pub open spec fn device_rect_spec(left: int, top: int, right: int, bottom: int, dpi: int) -> Rect {
    spec_logical_rect(left, top, right, bottom, dpi).spec_to_rect()
}

/// `value` is an `i32`, and so is `value` times `dpi`: the layout can scale it.
pub open spec fn scales(value: int, dpi: int) -> bool {
    fits_i32(value) && fits_i32(value * dpi)
}

/// A value between two values that scale scales too.
pub proof fn lemma_scales_between(low: int, value: int, high: int, dpi: int)
    requires
        scales(low, dpi),
        scales(high, dpi),
        low <= value <= high,
    ensures
        scales(value, dpi),
{
    if dpi >= 0 {
        assert(low * dpi <= value * dpi <= high * dpi) by (nonlinear_arith)
            requires
                low <= value <= high,
                dpi >= 0,
        ;
    } else {
        assert(high * dpi <= value * dpi <= low * dpi) by (nonlinear_arith)
            requires
                low <= value <= high,
                dpi < 0,
        ;
    }
}

/// A value that scales without overflow lands within the device range.
proof fn lemma_scaled_device(value: int, dpi: int)
    requires
        fits_i32(value * dpi),
    ensures
        device_coordinate_ok(crate::geometry::spec_scale(value, dpi)),
{
    let p = value * dpi;
    if p >= 0 {
        assert(0 <= p / 96 <= p) by (nonlinear_arith)
            requires
                p >= 0,
        ;
    } else {
        assert(0 <= (-p) / 96 <= -p) by (nonlinear_arith)
            requires
                p < 0,
        ;
    }
}

/// Scales logical edges into a device rectangle; each edge times the dpi fits
/// in 32 bits.
pub fn device_rect(left: i32, top: i32, right: i32, bottom: i32, dpi: i32) -> (r: Rect)
    requires
        fits_i32(left * dpi),
        fits_i32(top * dpi),
        fits_i32(right * dpi),
        fits_i32(bottom * dpi),
    ensures
        r == device_rect_spec(left as int, top as int, right as int, bottom as int, dpi as int),
        device_rect_ok(r),
{
    proof {
        lemma_scaled_device(left as int, dpi as int);
        lemma_scaled_device(top as int, dpi as int);
        lemma_scaled_device(right as int, dpi as int);
        lemma_scaled_device(bottom as int, dpi as int);
    }
    logical_rect(left, top, right, bottom, dpi).to_rect()
}

/// Whether `(x, y)` lies in `rect`, edges included.
pub fn contains(rect: Rect, x: i32, y: i32) -> (r: bool)
    ensures
        r == rect.spec_contains(x as int, y as int),
{
    x >= rect.left && x <= rect.right && y >= rect.top && y <= rect.bottom
}

pub(crate) fn max_i32(a: i32, b: i32) -> (r: i32)
    ensures
        r == max_int(a as int, b as int),
{
    if a >= b {
        a
    } else {
        b
    }
}

pub(crate) fn min_i32(a: i32, b: i32) -> (r: i32)
    ensures
        r == min_int(a as int, b as int),
{
    if a <= b {
        a
    } else {
        b
    }
}

pub(crate) fn clamp_i32(value: i32, low: i32, high: i32) -> (r: i32)
    requires
        low <= high,
    ensures
        r == clamp_int(value as int, low as int, high as int),
{
    if value < low {
        low
    } else if value > high {
        high
    } else {
        value
    }
}

/// Height of `count` rows of `row_height`, with the gaps between them.
pub open spec fn block_height(count: int, row_height: int) -> int {
    if count <= 0 {
        0
    } else {
        count * row_height + (count - 1) * ROW_GAP
    }
}

/// Where a setting row and its parts go, from its logical top and height.
pub open spec fn spec_layout_item(
    item: SettingItem,
    left: int,
    right: int,
    top: int,
    height: int,
    stacked: bool,
    dpi: int,
) -> SettingItemLayout {
    let center_y = top + div_toward_zero(height, 2);
    let text_left = left + 74;
    let card = device_rect_spec(left, top, right, top + height, dpi);
    let icon = device_rect_spec(left + 18, center_y - 23, left + 64, center_y + 23, dpi);
    if stacked {
        let title_top = top + 12;
        let description_top = title_top + 29;
        let control_bottom = top + height - 14;
        SettingItemLayout {
            id: item.id,
            control_kind: item.control,
            card,
            icon,
            title: device_rect_spec(text_left, title_top, right - 22, title_top + 31, dpi),
            description: device_rect_spec(
                text_left,
                description_top,
                right - 22,
                description_top + 31,
                dpi,
            ),
            control: device_rect_spec(text_left, control_bottom - 38, right - 22, control_bottom, dpi),
        }
    } else {
        let text_right = max_int(right - 324, text_left + 120);
        let control_left = max_int(right - 300, text_right + 18);
        let text_top = center_y - 29;
        SettingItemLayout {
            id: item.id,
            control_kind: item.control,
            card,
            icon,
            title: device_rect_spec(text_left, text_top, text_right, text_top + 30, dpi),
            description: device_rect_spec(text_left, text_top + 28, text_right, text_top + 56, dpi),
            control: device_rect_spec(control_left, center_y - 22, right - 22, center_y + 22, dpi),
        }
    }
}

/// The rows of a block, one under the other from `top`.
pub open spec fn spec_layout_items(
    items: Seq<SettingItem>,
    left: int,
    right: int,
    top: int,
    row_height: int,
    stacked: bool,
    dpi: int,
) -> Seq<SettingItemLayout> {
    Seq::new(
        items.len(),
        |i: int| spec_layout_item(items[i], left, right, top + i * (row_height + ROW_GAP), row_height, stacked, dpi),
    )
}

/// Every logical coordinate of a row, and every value the row computes on the
/// way to them, is an `i32`, and each coordinate scales to `dpi`.
pub open spec fn item_scales(left: int, right: int, top: int, height: int, stacked: bool, dpi: int) -> bool {
    let center_y = top + div_toward_zero(height, 2);
    let text_left = left + 74;
    &&& scales(left, dpi)
    &&& scales(right, dpi)
    &&& scales(top, dpi)
    &&& scales(top + height, dpi)
    &&& fits_i32(center_y)
    &&& scales(left + 18, dpi)
    &&& scales(left + 64, dpi)
    &&& scales(center_y - 23, dpi)
    &&& scales(center_y + 23, dpi)
    &&& scales(text_left, dpi)
    &&& scales(right - 22, dpi)
    &&& if stacked {
        &&& scales(top + 12, dpi)
        &&& scales(top + 41, dpi)
        &&& scales(top + 43, dpi)
        &&& scales(top + 72, dpi)
        &&& scales(top + height - 14, dpi)
        &&& scales(top + height - 52, dpi)
    } else {
        let text_right = max_int(right - 324, text_left + 120);
        &&& fits_i32(right - 324)
        &&& fits_i32(text_left + 120)
        &&& scales(text_right, dpi)
        &&& fits_i32(right - 300)
        &&& fits_i32(text_right + 18)
        &&& scales(max_int(right - 300, text_right + 18), dpi)
        &&& scales(center_y - 29, dpi)
        &&& scales(center_y - 1, dpi)
        &&& scales(center_y + 1, dpi)
        &&& scales(center_y + 27, dpi)
        &&& scales(center_y - 22, dpi)
        &&& scales(center_y + 22, dpi)
    }
}

/// The columns of the content: both edges scale, the left one is not negative
/// and the content is wide enough for the parts of a row to lie between them.
pub open spec fn columns_scale(left: int, right: int, dpi: int) -> bool {
    scales(left, dpi) && scales(right, dpi) && 0 <= left && left + 212 <= right
}

/// The row height that goes with `stacked`.
pub open spec fn row_height_for(stacked: bool) -> int {
    if stacked {
        STACKED_ROW_HEIGHT as int
    } else {
        ROW_HEIGHT as int
    }
}

/// A row whose edges scale, in columns that scale, has all its parts scale.
pub(crate) proof fn lemma_item_scales(left: int, right: int, top: int, height: int, stacked: bool, dpi: int)
    requires
        columns_scale(left, right, dpi),
        scales(top, dpi),
        scales(top + height, dpi),
        height == row_height_for(stacked),
    ensures
        item_scales(left, right, top, height, stacked, dpi),
{
    let center_y = top + div_toward_zero(height, 2);
    let text_left = left + 74;
    let bottom = top + height;
    lemma_scales_between(left, left + 18, right, dpi);
    lemma_scales_between(left, left + 64, right, dpi);
    lemma_scales_between(top, center_y - 23, bottom, dpi);
    lemma_scales_between(top, center_y + 23, bottom, dpi);
    lemma_scales_between(left, text_left, right, dpi);
    lemma_scales_between(left, right - 22, right, dpi);
    if stacked {
        lemma_scales_between(top, top + 12, bottom, dpi);
        lemma_scales_between(top, top + 41, bottom, dpi);
        lemma_scales_between(top, top + 43, bottom, dpi);
        lemma_scales_between(top, top + 72, bottom, dpi);
        lemma_scales_between(top, bottom - 14, bottom, dpi);
        lemma_scales_between(top, bottom - 52, bottom, dpi);
    } else {
        let text_right = max_int(right - 324, text_left + 120);
        lemma_scales_between(left, text_right, right, dpi);
        lemma_scales_between(left, max_int(right - 300, text_right + 18), right, dpi);
        lemma_scales_between(top, center_y - 29, bottom, dpi);
        lemma_scales_between(top, center_y - 1, bottom, dpi);
        lemma_scales_between(top, center_y + 1, bottom, dpi);
        lemma_scales_between(top, center_y + 27, bottom, dpi);
        lemma_scales_between(top, center_y - 22, bottom, dpi);
        lemma_scales_between(top, center_y + 22, bottom, dpi);
    }
}

pub(crate) fn layout_item(
    item: SettingItem,
    left: i32,
    right: i32,
    top: i32,
    height: i32,
    stacked: bool,
    dpi: i32,
) -> (r: SettingItemLayout)
    requires
        0 < height,
        item_scales(left as int, right as int, top as int, height as int, stacked, dpi as int),
    ensures
        r == spec_layout_item(item, left as int, right as int, top as int, height as int, stacked, dpi as int),
        device_rect_ok(r.control),
{
    let card = device_rect(left, top, right, top + height, dpi);
    let center_y = top + height / 2;
    let icon = device_rect(left + 18, center_y - 23, left + 64, center_y + 23, dpi);
    let text_left = left + 74;
    if stacked {
        let title_top = top + 12;
        let description_top = title_top + 29;
        let control_bottom = top + height - 14;
        SettingItemLayout {
            id: item.id,
            control_kind: item.control,
            card,
            icon,
            title: device_rect(text_left, title_top, right - 22, title_top + 31, dpi),
            description: device_rect(text_left, description_top, right - 22, description_top + 31, dpi),
            control: device_rect(text_left, control_bottom - 38, right - 22, control_bottom, dpi),
        }
    } else {
        let text_right = max_i32(right - 324, text_left + 120);
        let control_left = max_i32(right - 300, text_right + 18);
        let text_top = center_y - 29;
        SettingItemLayout {
            id: item.id,
            control_kind: item.control,
            card,
            icon,
            title: device_rect(text_left, text_top, text_right, text_top + 30, dpi),
            description: device_rect(text_left, text_top + 28, text_right, text_top + 56, dpi),
            control: device_rect(control_left, center_y - 22, right - 22, center_y + 22, dpi),
        }
    }
}

/// Row `i` of rows `row_height` high with their gaps starts `i * (row_height + ROW_GAP)`
/// below the first, within the block of `count` rows.
proof fn lemma_row_offset(i: int, count: int, row_height: int)
    requires
        0 <= i < count,
        0 < row_height,
    ensures
        0 <= i * (row_height + ROW_GAP),
        (i + 1) * (row_height + ROW_GAP) == i * (row_height + ROW_GAP) + row_height + ROW_GAP,
        (i + 1) * (row_height + ROW_GAP) <= count * (row_height + ROW_GAP),
{
    assert(0 <= i * (row_height + 4)) by (nonlinear_arith)
        requires
            0 <= i,
            0 < row_height,
    ;
    assert((i + 1) * (row_height + 4) == i * (row_height + 4) + row_height + 4) by (nonlinear_arith);
    assert((i + 1) * (row_height + 4) <= count * (row_height + 4)) by (nonlinear_arith)
        requires
            i + 1 <= count,
            0 < row_height,
    ;
}

/// A block of `count` rows `row_height` high is `count * (row_height + ROW_GAP)`
/// less one gap high.
proof fn lemma_block_span(count: int, row_height: int)
    requires
        0 <= count,
        0 < row_height,
    ensures
        count > 0 ==> block_height(count, row_height) == count * (row_height + ROW_GAP) - ROW_GAP,
        count == 0 ==> count * (row_height + ROW_GAP) == 0,
        0 <= block_height(count, row_height),
        0 <= count * row_height <= block_height(count, row_height),
        count > 0 ==> 0 <= (count - 1) * ROW_GAP <= block_height(count, row_height),
{
    assert(count * (row_height + 4) == count * row_height + count * 4) by (nonlinear_arith);
    assert(0 <= count * row_height) by (nonlinear_arith)
        requires
            0 <= count,
            0 < row_height,
    ;
}

/// Lays out rows one under the other from `*y`, leaving `*y` below the last row
/// and its gap.
fn layout_items(
    items: &Vec<SettingItem>,
    left: i32,
    right: i32,
    y: &mut i32,
    row_height: i32,
    stacked: bool,
    dpi: i32,
) -> (r: Vec<SettingItemLayout>)
    requires
        columns_scale(left as int, right as int, dpi as int),
        row_height == row_height_for(stacked),
        scales(*old(y) as int, dpi as int),
        items@.len() > 0 ==> scales(*old(y) + items@.len() * (row_height + ROW_GAP) - ROW_GAP, dpi as int),
        fits_i32(*old(y) + items@.len() * (row_height + ROW_GAP)),
    ensures
        *final(y) == *old(y) + items@.len() * (row_height + ROW_GAP),
        r@ == spec_layout_items(items@, left as int, right as int, *old(y) as int, row_height as int, stacked, dpi as int),
        rows_ok(r@),
{
    let ghost top = *y as int;
    let ghost count = items@.len() as int;
    let mut result: Vec<SettingItemLayout> = Vec::new();
    let mut index: usize = 0;
    proof {
        assert(0 * (row_height + ROW_GAP) == 0) by (nonlinear_arith);
    }
    while index < items.len()
        invariant
            0 <= index <= count,
            count == items@.len(),
            columns_scale(left as int, right as int, dpi as int),
            row_height == row_height_for(stacked),
            scales(top, dpi as int),
            count > 0 ==> scales(top + count * (row_height + ROW_GAP) - ROW_GAP, dpi as int),
            fits_i32(top + count * (row_height + ROW_GAP)),
            *y == top + index * (row_height + ROW_GAP),
            result@.len() == index,
            rows_ok(result@),
            forall|j: int|
                0 <= j < index ==> #[trigger] result@[j] == spec_layout_item(
                    items@[j],
                    left as int,
                    right as int,
                    top + j * (row_height + ROW_GAP),
                    row_height as int,
                    stacked,
                    dpi as int,
                ),
        decreases count - index,
    {
        proof {
            let i = index as int;
            let row_top = top + i * (row_height + ROW_GAP);
            let last = top + count * (row_height + ROW_GAP) - ROW_GAP;
            lemma_row_offset(i, count, row_height as int);
            lemma_scales_between(top, row_top, last, dpi as int);
            lemma_scales_between(top, row_top + row_height, last, dpi as int);
            lemma_item_scales(left as int, right as int, row_top, row_height as int, stacked, dpi as int);
        }
        let layout = layout_item(items[index], left, right, *y, row_height, stacked, dpi);
        result.push(layout);
        *y = *y + row_height + ROW_GAP;
        index += 1;
    }
    proof {
        assert(result@ =~= spec_layout_items(items@, left as int, right as int, top as int, row_height as int, stacked, dpi as int));
    }
    result
}

/// `layout` is where `section` goes with its title at logical `top`.
pub open spec fn section_placed(
    layout: SectionLayout,
    section: SettingSection,
    left: int,
    right: int,
    top: int,
    row_height: int,
    stacked: bool,
    dpi: int,
) -> bool {
    let bottom = top + SECTION_HEIGHT + block_height(section.items@.len() as int, row_height);
    &&& layout.id == section.id
    &&& layout.title == device_rect_spec(left, top, right, top + SECTION_HEIGHT, dpi)
    &&& layout.bounds == device_rect_spec(left, top, right, bottom, dpi)
    &&& layout.items@ == spec_layout_items(
        section.items@,
        left,
        right,
        top + SECTION_HEIGHT,
        row_height,
        stacked,
        dpi,
    )
}

/// `layout` is where `section` goes from logical `top`.
pub open spec fn sub_section_placed(
    layout: SubSectionLayout,
    section: SettingSubSection,
    left: int,
    right: int,
    top: int,
    row_height: int,
    stacked: bool,
    dpi: int,
) -> bool {
    let bottom = top + block_height(section.items@.len() as int, row_height);
    &&& layout.parent == section.parent
    &&& layout.bounds == device_rect_spec(left, top, right, bottom, dpi)
    &&& layout.items@ == spec_layout_items(section.items@, left, right, top, row_height, stacked, dpi)
}

fn layout_section(
    section: &SettingSection,
    left: i32,
    right: i32,
    y: &mut i32,
    row_height: i32,
    stacked: bool,
    dpi: i32,
) -> (r: SectionLayout)
    requires
        columns_scale(left as int, right as int, dpi as int),
        row_height == row_height_for(stacked),
        scales(*old(y) as int, dpi as int),
        scales(*old(y) + SECTION_HEIGHT + block_height(section.items@.len() as int, row_height as int), dpi as int),
        fits_i32(*old(y) + SECTION_HEIGHT + block_height(section.items@.len() as int, row_height as int) + SECTION_GAP),
    ensures
        section_placed(r, *section, left as int, right as int, *old(y) as int, row_height as int, stacked, dpi as int),
        rows_ok(r.items@),
        *final(y) == *old(y) + SECTION_HEIGHT + block_height(section.items@.len() as int, row_height as int) + SECTION_GAP,
{
    let top = *y;
    let ghost n = section.items@.len() as int;
    let ghost bottom_spec = top + SECTION_HEIGHT + block_height(n, row_height as int);
    proof {
        lemma_block_span(n, row_height as int);
        lemma_scales_between(top as int, top + SECTION_HEIGHT, bottom_spec, dpi as int);
    }
    let title = device_rect(left, *y, right, *y + SECTION_HEIGHT, dpi);
    *y = *y + SECTION_HEIGHT;
    let items = layout_items(&section.items, left, right, y, row_height, stacked, dpi);
    let bottom = if items.len() == 0 {
        *y
    } else {
        *y - ROW_GAP
    };
    *y = bottom + SECTION_GAP;
    SectionLayout { id: section.id, bounds: device_rect(left, top, right, bottom, dpi), title, items }
}

fn layout_sub_section(
    section: &SettingSubSection,
    left: i32,
    right: i32,
    y: &mut i32,
    row_height: i32,
    stacked: bool,
    dpi: i32,
) -> (r: SubSectionLayout)
    requires
        columns_scale(left as int, right as int, dpi as int),
        row_height == row_height_for(stacked),
        scales(*old(y) as int, dpi as int),
        scales(*old(y) + block_height(section.items@.len() as int, row_height as int), dpi as int),
        fits_i32(*old(y) + block_height(section.items@.len() as int, row_height as int) + SECTION_GAP),
    ensures
        sub_section_placed(r, *section, left as int, right as int, *old(y) as int, row_height as int, stacked, dpi as int),
        rows_ok(r.items@),
        *final(y) == *old(y) + block_height(section.items@.len() as int, row_height as int) + SECTION_GAP,
{
    let top = *y;
    let ghost n = section.items@.len() as int;
    proof {
        lemma_block_span(n, row_height as int);
    }
    let items = layout_items(&section.items, left, right, y, row_height, stacked, dpi);
    let bottom = if items.len() == 0 {
        *y
    } else {
        *y - ROW_GAP
    };
    *y = bottom + SECTION_GAP;
    SubSectionLayout { parent: section.parent, bounds: device_rect(left, top, right, bottom, dpi), items }
}

/// Logical height of the titled sections, one after the other, gaps left out.
pub open spec fn sections_extent(sections: Seq<SettingSection>, row_height: int) -> int
    decreases sections.len(),
{
    if sections.len() == 0 {
        0
    } else {
        sections_extent(sections.drop_last(), row_height) + SECTION_HEIGHT + block_height(
            sections.last().items@.len() as int,
            row_height,
        )
    }
}

/// Logical height of the sub-sections, one after the other, gaps left out.
pub open spec fn sub_sections_extent(sections: Seq<SettingSubSection>, row_height: int) -> int
    decreases sections.len(),
{
    if sections.len() == 0 {
        0
    } else {
        sub_sections_extent(sections.drop_last(), row_height) + block_height(
            sections.last().items@.len() as int,
            row_height,
        )
    }
}

/// Logical top of section `k` when the first one starts at `top`.
pub open spec fn section_top(sections: Seq<SettingSection>, k: int, top: int, row_height: int) -> int {
    top + sections_extent(sections.take(k), row_height) + SECTION_GAP * k
}

/// Logical top of sub-section `k` when the first one starts at `top`.
pub open spec fn sub_section_top(sections: Seq<SettingSubSection>, k: int, top: int, row_height: int) -> int {
    top + sub_sections_extent(sections.take(k), row_height) + SECTION_GAP * k
}

/// Logical height of everything in the scrolling part of the page.
pub open spec fn spec_body_height(ui: SettingsUi, row_height: int) -> int {
    let blocks = ui.content.sections@.len() + ui.content.sub_sections@.len();
    sections_extent(ui.content.sections@, row_height) + sub_sections_extent(
        ui.content.sub_sections@,
        row_height,
    ) + max_int(blocks - 1, 0) * SECTION_GAP + BODY_BOTTOM_PADDING
}

/// Prefixes of the sections have no greater extent than all of them.
proof fn lemma_section_prefix(sections: Seq<SettingSection>, k: int, row_height: int)
    requires
        0 <= k <= sections.len(),
        0 < row_height,
    ensures
        0 <= sections_extent(sections.take(k), row_height) <= sections_extent(sections, row_height),
    decreases sections.len() - k,
{
    lemma_sections_nonneg(sections.take(k), row_height);
    if k < sections.len() {
        lemma_section_prefix(sections, k + 1, row_height);
        let longer = sections.take(k + 1);
        assert(longer.drop_last() =~= sections.take(k));
        lemma_block_span(longer.last().items@.len() as int, row_height);
    } else {
        assert(sections.take(k) =~= sections);
        lemma_sections_nonneg(sections, row_height);
    }
}

proof fn lemma_sections_nonneg(sections: Seq<SettingSection>, row_height: int)
    requires
        0 < row_height,
    ensures
        0 <= sections_extent(sections, row_height),
    decreases sections.len(),
{
    if sections.len() > 0 {
        lemma_sections_nonneg(sections.drop_last(), row_height);
        lemma_block_span(sections.last().items@.len() as int, row_height);
    }
}

proof fn lemma_sub_sections_nonneg(sections: Seq<SettingSubSection>, row_height: int)
    requires
        0 < row_height,
    ensures
        0 <= sub_sections_extent(sections, row_height),
    decreases sections.len(),
{
    if sections.len() > 0 {
        lemma_sub_sections_nonneg(sections.drop_last(), row_height);
        lemma_block_span(sections.last().items@.len() as int, row_height);
    }
}

proof fn lemma_sub_section_prefix(sections: Seq<SettingSubSection>, k: int, row_height: int)
    requires
        0 <= k <= sections.len(),
        0 < row_height,
    ensures
        0 <= sub_sections_extent(sections.take(k), row_height) <= sub_sections_extent(sections, row_height),
    decreases sections.len() - k,
{
    lemma_sub_sections_nonneg(sections.take(k), row_height);
    if k < sections.len() {
        lemma_sub_section_prefix(sections, k + 1, row_height);
        let longer = sections.take(k + 1);
        assert(longer.drop_last() =~= sections.take(k));
        lemma_block_span(longer.last().items@.len() as int, row_height);
    } else {
        assert(sections.take(k) =~= sections);
        lemma_sub_sections_nonneg(sections, row_height);
    }
}

/// Section `k + 1` starts below section `k`, its rows and the gap; the sections
/// after `k` start no higher than section `k + 1`.
proof fn lemma_section_step(sections: Seq<SettingSection>, k: int, top: int, row_height: int)
    requires
        0 <= k < sections.len(),
        0 < row_height,
    ensures
        section_top(sections, k + 1, top, row_height) == section_top(sections, k, top, row_height) + SECTION_HEIGHT
            + block_height(sections[k].items@.len() as int, row_height) + SECTION_GAP,
        top <= section_top(sections, k, top, row_height),
        section_top(sections, k + 1, top, row_height) <= section_top(sections, sections.len() as int, top, row_height),
        0 <= block_height(sections[k].items@.len() as int, row_height),
{
    let n = sections.len() as int;
    assert(sections.take(k + 1).drop_last() =~= sections.take(k));
    assert(sections.take(k + 1).last() == sections[k]);
    lemma_section_prefix(sections, k, row_height);
    lemma_section_prefix(sections.take(n), k + 1, row_height);
    assert(sections.take(n).take(k + 1) =~= sections.take(k + 1));
    lemma_block_span(sections[k].items@.len() as int, row_height);
}

proof fn lemma_sub_section_step(sections: Seq<SettingSubSection>, k: int, top: int, row_height: int)
    requires
        0 <= k < sections.len(),
        0 < row_height,
    ensures
        sub_section_top(sections, k + 1, top, row_height) == sub_section_top(sections, k, top, row_height)
            + block_height(sections[k].items@.len() as int, row_height) + SECTION_GAP,
        top <= sub_section_top(sections, k, top, row_height),
        sub_section_top(sections, k + 1, top, row_height) <= sub_section_top(sections, sections.len() as int, top, row_height),
        0 <= block_height(sections[k].items@.len() as int, row_height),
{
    let n = sections.len() as int;
    assert(sections.take(k + 1).drop_last() =~= sections.take(k));
    assert(sections.take(k + 1).last() == sections[k]);
    lemma_sub_section_prefix(sections, k, row_height);
    lemma_sub_section_prefix(sections.take(n), k + 1, row_height);
    assert(sections.take(n).take(k + 1) =~= sections.take(k + 1));
    lemma_block_span(sections[k].items@.len() as int, row_height);
}

/// Height of `count` rows of `row_height`, with the gaps between them.
fn item_block_height(count: usize, row_height: i32) -> (r: i32)
    requires
        count <= i32::MAX,
        count > 0 ==> fits_i32(count * row_height),
        count > 0 ==> fits_i32((count - 1) * ROW_GAP),
        count > 0 ==> fits_i32(count * row_height + (count - 1) * ROW_GAP),
    ensures
        r == block_height(count as int, row_height as int),
{
    if count == 0 {
        return 0;
    }
    count as i32 * row_height + (count - 1) as i32 * ROW_GAP
}

/// A block whose height is at most `limit` computes its height within `i32`.
proof fn lemma_block_fits(count: int, row_height: int, limit: int)
    requires
        0 <= count,
        0 < row_height,
        block_height(count, row_height) <= limit <= i32::MAX,
    ensures
        count <= i32::MAX,
        count > 0 ==> fits_i32(count * row_height),
        count > 0 ==> fits_i32((count - 1) * ROW_GAP),
        count > 0 ==> fits_i32(count * row_height + (count - 1) * ROW_GAP),
{
    lemma_block_span(count, row_height);
    assert(count <= count * row_height) by (nonlinear_arith)
        requires
            0 <= count,
            1 <= row_height,
    ;
}

/// The body height is made of the extents of the sections and sub-sections, none
/// negative, the gaps between the blocks and the padding below.
proof fn lemma_body_parts(ui: SettingsUi, row_height: int)
    requires
        0 < row_height,
    ensures
        0 <= sections_extent(ui.content.sections@, row_height),
        0 <= sub_sections_extent(ui.content.sub_sections@, row_height),
        spec_body_height(ui, row_height) >= BODY_BOTTOM_PADDING,
{
    lemma_sections_nonneg(ui.content.sections@, row_height);
    lemma_sub_sections_nonneg(ui.content.sub_sections@, row_height);
}

/// Logical height of everything in the scrolling part of the page.
fn content_body_height(ui: &SettingsUi, row_height: i32) -> (r: i32)
    requires
        0 < row_height,
        fits_i32(spec_body_height(*ui, row_height as int)),
    ensures
        r == spec_body_height(*ui, row_height as int),
        BODY_BOTTOM_PADDING <= r,
{
    let ghost sections = ui.content.sections@;
    let ghost subs = ui.content.sub_sections@;
    let ghost body = spec_body_height(*ui, row_height as int);
    proof {
        lemma_body_parts(*ui, row_height as int);
    }
    let mut section_height: i32 = 0;
    let mut k: usize = 0;
    proof {
        assert(sections.take(0) =~= Seq::<SettingSection>::empty());
    }
    while k < ui.content.sections.len()
        invariant
            0 <= k <= sections.len(),
            sections == ui.content.sections@,
            0 < row_height,
            sections_extent(sections, row_height as int) <= i32::MAX,
            section_height == sections_extent(sections.take(k as int), row_height as int),
        decreases sections.len() - k,
    {
        proof {
            lemma_section_prefix(sections, k as int + 1, row_height as int);
            lemma_section_prefix(sections, k as int, row_height as int);
            assert(sections.take(k as int + 1).drop_last() =~= sections.take(k as int));
            assert(sections.take(k as int + 1).last() == sections[k as int]);
            lemma_block_fits(sections[k as int].items@.len() as int, row_height as int, i32::MAX as int);
        }
        let count = ui.content.sections[k].items.len();
        section_height = section_height + SECTION_HEIGHT + item_block_height(count, row_height);
        k += 1;
    }
    proof {
        assert(sections.take(sections.len() as int) =~= sections);
    }
    let mut sub_height: i32 = 0;
    let mut m: usize = 0;
    proof {
        assert(subs.take(0) =~= Seq::<SettingSubSection>::empty());
    }
    while m < ui.content.sub_sections.len()
        invariant
            0 <= m <= subs.len(),
            subs == ui.content.sub_sections@,
            0 < row_height,
            sub_sections_extent(subs, row_height as int) <= i32::MAX,
            sub_height == sub_sections_extent(subs.take(m as int), row_height as int),
        decreases subs.len() - m,
    {
        proof {
            lemma_sub_section_prefix(subs, m as int + 1, row_height as int);
            lemma_sub_section_prefix(subs, m as int, row_height as int);
            assert(subs.take(m as int + 1).drop_last() =~= subs.take(m as int));
            assert(subs.take(m as int + 1).last() == subs[m as int]);
            lemma_block_fits(subs[m as int].items@.len() as int, row_height as int, i32::MAX as int);
        }
        let count = ui.content.sub_sections[m].items.len();
        sub_height = sub_height + item_block_height(count, row_height);
        m += 1;
    }
    proof {
        assert(subs.take(subs.len() as int) =~= subs);
    }
    let section_count = ui.content.sections.len();
    let sub_count = ui.content.sub_sections.len();
    let gaps: i32 = if section_count == 0 && sub_count == 0 {
        0
    } else if section_count == 0 {
        (sub_count - 1) as i32
    } else {
        (section_count - 1) as i32 + sub_count as i32
    };
    section_height + sub_height + gaps * SECTION_GAP + BODY_BOTTOM_PADDING
}

fn layout_sections(
    sections: &Vec<SettingSection>,
    left: i32,
    right: i32,
    y: &mut i32,
    row_height: i32,
    stacked: bool,
    dpi: i32,
) -> (r: Vec<SectionLayout>)
    requires
        columns_scale(left as int, right as int, dpi as int),
        row_height == row_height_for(stacked),
        sections@.len() > 0 ==> scales(*old(y) as int, dpi as int),
        sections@.len() > 0 ==> scales(
            section_top(sections@, sections@.len() as int, *old(y) as int, row_height as int) - SECTION_GAP,
            dpi as int,
        ),
        fits_i32(section_top(sections@, sections@.len() as int, *old(y) as int, row_height as int)),
    ensures
        r@.len() == sections@.len(),
        forall|k: int|
            0 <= k < sections@.len() ==> section_placed(
                #[trigger] r@[k],
                sections@[k],
                left as int,
                right as int,
                section_top(sections@, k, *old(y) as int, row_height as int),
                row_height as int,
                stacked,
                dpi as int,
            ),
        *final(y) == section_top(sections@, sections@.len() as int, *old(y) as int, row_height as int),
        forall|k: int| 0 <= k < r@.len() ==> rows_ok(#[trigger] r@[k].items@),
{
    let ghost top = *y as int;
    let ghost all = sections@;
    let ghost n = all.len() as int;
    let ghost last = section_top(all, n, top, row_height as int) - SECTION_GAP;
    let mut result: Vec<SectionLayout> = Vec::new();
    let mut k: usize = 0;
    proof {
        assert(all.take(0) =~= Seq::<SettingSection>::empty());
    }
    while k < sections.len()
        invariant
            0 <= k <= n,
            n == all.len(),
            all == sections@,
            columns_scale(left as int, right as int, dpi as int),
            row_height == row_height_for(stacked),
            n > 0 ==> scales(top, dpi as int),
            n > 0 ==> scales(last, dpi as int),
            last == section_top(all, n, top, row_height as int) - SECTION_GAP,
            fits_i32(last + SECTION_GAP),
            *y == section_top(all, k as int, top, row_height as int),
            result@.len() == k,
            forall|j: int| 0 <= j < k ==> rows_ok(#[trigger] result@[j].items@),
            forall|j: int|
                0 <= j < k ==> section_placed(
                    #[trigger] result@[j],
                    all[j],
                    left as int,
                    right as int,
                    section_top(all, j, top, row_height as int),
                    row_height as int,
                    stacked,
                    dpi as int,
                ),
        decreases n - k,
    {
        proof {
            let i = k as int;
            lemma_section_step(all, i, top, row_height as int);
            let this_top = section_top(all, i, top, row_height as int);
            let bottom = this_top + SECTION_HEIGHT + block_height(all[i].items@.len() as int, row_height as int);
            lemma_scales_between(top, this_top, last, dpi as int);
            lemma_scales_between(top, bottom, last, dpi as int);
        }
        let layout = layout_section(&sections[k], left, right, y, row_height, stacked, dpi);
        result.push(layout);
        k += 1;
    }
    result
}

fn layout_sub_sections(
    sections: &Vec<SettingSubSection>,
    left: i32,
    right: i32,
    y: &mut i32,
    row_height: i32,
    stacked: bool,
    dpi: i32,
) -> (r: Vec<SubSectionLayout>)
    requires
        columns_scale(left as int, right as int, dpi as int),
        row_height == row_height_for(stacked),
        sections@.len() > 0 ==> scales(*old(y) as int, dpi as int),
        sections@.len() > 0 ==> scales(
            sub_section_top(sections@, sections@.len() as int, *old(y) as int, row_height as int) - SECTION_GAP,
            dpi as int,
        ),
        fits_i32(sub_section_top(sections@, sections@.len() as int, *old(y) as int, row_height as int)),
    ensures
        r@.len() == sections@.len(),
        forall|k: int|
            0 <= k < sections@.len() ==> sub_section_placed(
                #[trigger] r@[k],
                sections@[k],
                left as int,
                right as int,
                sub_section_top(sections@, k, *old(y) as int, row_height as int),
                row_height as int,
                stacked,
                dpi as int,
            ),
        *final(y) == sub_section_top(sections@, sections@.len() as int, *old(y) as int, row_height as int),
        forall|k: int| 0 <= k < r@.len() ==> rows_ok(#[trigger] r@[k].items@),
{
    let ghost top = *y as int;
    let ghost all = sections@;
    let ghost n = all.len() as int;
    let ghost last = sub_section_top(all, n, top, row_height as int) - SECTION_GAP;
    let mut result: Vec<SubSectionLayout> = Vec::new();
    let mut k: usize = 0;
    proof {
        assert(all.take(0) =~= Seq::<SettingSubSection>::empty());
    }
    while k < sections.len()
        invariant
            0 <= k <= n,
            n == all.len(),
            all == sections@,
            columns_scale(left as int, right as int, dpi as int),
            row_height == row_height_for(stacked),
            n > 0 ==> scales(top, dpi as int),
            n > 0 ==> scales(last, dpi as int),
            last == sub_section_top(all, n, top, row_height as int) - SECTION_GAP,
            fits_i32(last + SECTION_GAP),
            *y == sub_section_top(all, k as int, top, row_height as int),
            result@.len() == k,
            forall|j: int| 0 <= j < k ==> rows_ok(#[trigger] result@[j].items@),
            forall|j: int|
                0 <= j < k ==> sub_section_placed(
                    #[trigger] result@[j],
                    all[j],
                    left as int,
                    right as int,
                    sub_section_top(all, j, top, row_height as int),
                    row_height as int,
                    stacked,
                    dpi as int,
                ),
        decreases n - k,
    {
        proof {
            let i = k as int;
            lemma_sub_section_step(all, i, top, row_height as int);
            let this_top = sub_section_top(all, i, top, row_height as int);
            let bottom = this_top + block_height(all[i].items@.len() as int, row_height as int);
            lemma_scales_between(top, this_top, last, dpi as int);
            lemma_scales_between(top, bottom, last, dpi as int);
        }
        let layout = layout_sub_section(&sections[k], left, right, y, row_height, stacked, dpi);
        result.push(layout);
        k += 1;
    }
    result
}

pub open spec fn sidebar_item_width(width: int) -> int {
    min_int(SIDEBAR_ITEM_WIDTH as int, max_int(width - 16, 1))
}

pub open spec fn sidebar_item_left(width: int) -> int {
    div_toward_zero(width - sidebar_item_width(width), 2)
}

pub open spec fn spec_sidebar_item(item: SidebarItem, left: int, right: int, top: int, dpi: int) -> SidebarItemLayout {
    SidebarItemLayout {
        id: item.id,
        area: device_rect_spec(left, top, right, top + SIDEBAR_ITEM_HEIGHT, dpi),
        icon: item.icon,
        selected: item.selected,
    }
}

/// Logical top of the bottom group of `count` sidebar entries.
pub open spec fn sidebar_bottom_top(count: int, height: int) -> int {
    height - SIDEBAR_BOTTOM_MARGIN - (count * SIDEBAR_ITEM_HEIGHT + max_int(count - 1, 0)
        * SIDEBAR_ITEM_GAP)
}

/// `layout` is where the sidebar of `ui` goes, `width` wide and `height` high.
pub open spec fn sidebar_placed(
    layout: SidebarLayout,
    ui: SettingsUi,
    width: int,
    height: int,
    expanded: bool,
    dpi: int,
) -> bool {
    let left = sidebar_item_left(width);
    let right = left + sidebar_item_width(width);
    let main = ui.sidebar.main@;
    let bottom = ui.sidebar.bottom@;
    let bottom_top = sidebar_bottom_top(bottom.len() as int, height);
    &&& layout.bounds == device_rect_spec(0, 0, width, height, dpi)
    &&& layout.title == device_rect_spec(28, 20, width - 14, 66, dpi)
    &&& layout.expanded == expanded
    &&& layout.main@.len() == main.len()
    &&& forall|i: int|
        0 <= i < main.len() ==> #[trigger] layout.main@[i] == spec_sidebar_item(
            main[i],
            left,
            right,
            SIDEBAR_MAIN_TOP + i * (SIDEBAR_ITEM_HEIGHT + SIDEBAR_ITEM_GAP),
            dpi,
        )
    &&& layout.bottom@.len() == bottom.len()
    &&& forall|i: int|
        0 <= i < bottom.len() ==> #[trigger] layout.bottom@[i] == spec_sidebar_item(
            bottom[i],
            left,
            right,
            bottom_top + i * (SIDEBAR_ITEM_HEIGHT + SIDEBAR_ITEM_GAP),
            dpi,
        )
}

fn layout_sidebar_item(item: SidebarItem, left: i32, right: i32, top: i32, dpi: i32) -> (r: SidebarItemLayout)
    requires
        scales(left as int, dpi as int),
        scales(right as int, dpi as int),
        scales(top as int, dpi as int),
        scales(top + SIDEBAR_ITEM_HEIGHT, dpi as int),
    ensures
        r == spec_sidebar_item(item, left as int, right as int, top as int, dpi as int),
{
    SidebarItemLayout {
        id: item.id,
        area: device_rect(left, top, right, top + SIDEBAR_ITEM_HEIGHT, dpi),
        icon: item.icon,
        selected: item.selected,
    }
}

/// Logical bottom of the last of `count` sidebar entries placed from `top`.
pub open spec fn sidebar_group_bottom(top: int, count: int) -> int {
    top + (count - 1) * (SIDEBAR_ITEM_HEIGHT + SIDEBAR_ITEM_GAP) + SIDEBAR_ITEM_HEIGHT
}

fn layout_sidebar_group(items: &Vec<SidebarItem>, left: i32, right: i32, top: i32, dpi: i32) -> (r: Vec<SidebarItemLayout>)
    requires
        scales(left as int, dpi as int),
        scales(right as int, dpi as int),
        items@.len() > 0 ==> scales(top as int, dpi as int),
        items@.len() > 0 ==> scales(sidebar_group_bottom(top as int, items@.len() as int), dpi as int),
        items@.len() > 0 ==> fits_i32((items@.len() - 1) * (SIDEBAR_ITEM_HEIGHT + SIDEBAR_ITEM_GAP)),
    ensures
        r@.len() == items@.len(),
        forall|i: int|
            0 <= i < items@.len() ==> #[trigger] r@[i] == spec_sidebar_item(
                items@[i],
                left as int,
                right as int,
                top + i * (SIDEBAR_ITEM_HEIGHT + SIDEBAR_ITEM_GAP),
                dpi as int,
            ),
{
    let ghost count = items@.len() as int;
    let ghost last = sidebar_group_bottom(top as int, count);
    let mut result: Vec<SidebarItemLayout> = Vec::new();
    let mut index: usize = 0;
    while index < items.len()
        invariant
            0 <= index <= count,
            count == items@.len(),
            last == sidebar_group_bottom(top as int, count),
            scales(left as int, dpi as int),
            scales(right as int, dpi as int),
            count > 0 ==> scales(top as int, dpi as int),
            count > 0 ==> scales(last, dpi as int),
            count > 0 ==> fits_i32((count - 1) * (SIDEBAR_ITEM_HEIGHT + SIDEBAR_ITEM_GAP)),
            result@.len() == index,
            forall|i: int|
                0 <= i < index ==> #[trigger] result@[i] == spec_sidebar_item(
                    items@[i],
                    left as int,
                    right as int,
                    top + i * (SIDEBAR_ITEM_HEIGHT + SIDEBAR_ITEM_GAP),
                    dpi as int,
                ),
        decreases count - index,
    {
        proof {
            let i = index as int;
            assert(0 <= i * 40 <= (count - 1) * 40) by (nonlinear_arith)
                requires
                    0 <= i <= count - 1,
            ;
            lemma_scales_between(top as int, top + i * 40, last, dpi as int);
            lemma_scales_between(top as int, top + i * 40 + 36, last, dpi as int);
        }
        let item_top = top + index as i32 * (SIDEBAR_ITEM_HEIGHT + SIDEBAR_ITEM_GAP);
        result.push(layout_sidebar_item(items[index], left, right, item_top, dpi));
        index += 1;
    }
    result
}

/// Logical height of the bottom group of `count` sidebar entries.
pub open spec fn sidebar_bottom_height(count: int) -> int {
    count * SIDEBAR_ITEM_HEIGHT + max_int(count - 1, 0) * SIDEBAR_ITEM_GAP
}

/// What the sidebar computes in a window `height` high stays within `i32`, and
/// its coordinates scale to `dpi`.
pub open spec fn sidebar_scales(ui: SettingsUi, height: int, dpi: int) -> bool {
    let main = ui.sidebar.main@.len() as int;
    let bottom = ui.sidebar.bottom@.len() as int;
    let bottom_top = sidebar_bottom_top(bottom, height);
    &&& main > 0 ==> scales(sidebar_group_bottom(SIDEBAR_MAIN_TOP as int, main), dpi)
    &&& fits_i32(bottom * SIDEBAR_ITEM_HEIGHT)
    &&& fits_i32(sidebar_bottom_height(bottom))
    &&& fits_i32(height - SIDEBAR_BOTTOM_MARGIN)
    &&& fits_i32(bottom_top)
    &&& bottom > 0 ==> scales(bottom_top, dpi)
    &&& bottom > 0 ==> scales(height - SIDEBAR_BOTTOM_MARGIN, dpi)
}

fn layout_sidebar(ui: &SettingsUi, width: i32, height: i32, expanded: bool, dpi: i32) -> (r: SidebarLayout)
    requires
        COMPACT_SIDEBAR_WIDTH <= width <= 1000,
        scales(width as int, dpi as int),
        scales(height as int, dpi as int),
        sidebar_scales(*ui, height as int, dpi as int),
    ensures
        sidebar_placed(r, *ui, width as int, height as int, expanded, dpi as int),
{
    let item_width = min_i32(SIDEBAR_ITEM_WIDTH, max_i32(width - 16, 1));
    let item_left = (width - item_width) / 2;
    let item_right = item_left + item_width;
    proof {
        assert(scales(0, dpi as int));
        lemma_scales_between(0, item_left as int, width as int, dpi as int);
        lemma_scales_between(0, item_right as int, width as int, dpi as int);
        lemma_scales_between(0, 14, width as int, dpi as int);
        lemma_scales_between(0, 20, width as int, dpi as int);
        lemma_scales_between(0, 28, width as int, dpi as int);
        lemma_scales_between(0, 66, width as int, dpi as int);
        lemma_scales_between(0, width - 14, width as int, dpi as int);
        let main = ui.sidebar.main@.len() as int;
        if main > 0 {
            assert(0 <= (main - 1) * 40) by (nonlinear_arith)
                requires
                    main >= 1,
            ;
            lemma_scales_between(0, SIDEBAR_MAIN_TOP as int, sidebar_group_bottom(SIDEBAR_MAIN_TOP as int, main), dpi as int);
        }
        let bottom_count = ui.sidebar.bottom@.len() as int;
        if bottom_count > 0 {
            assert(0 <= (bottom_count - 1) * 40 <= bottom_count * 36 + (bottom_count - 1) * 4) by (nonlinear_arith)
                requires
                    bottom_count >= 1,
            ;
        }
    }
    let main = layout_sidebar_group(&ui.sidebar.main, item_left, item_right, SIDEBAR_MAIN_TOP, dpi);
    let count = ui.sidebar.bottom.len();
    let gaps: i32 = if count == 0 {
        0
    } else {
        (count - 1) as i32
    };
    let bottom_height = count as i32 * SIDEBAR_ITEM_HEIGHT + gaps * SIDEBAR_ITEM_GAP;
    let bottom_top = height - SIDEBAR_BOTTOM_MARGIN - bottom_height;
    proof {
        let n = count as int;
        if n > 0 {
            assert(sidebar_group_bottom(bottom_top as int, n) == height - SIDEBAR_BOTTOM_MARGIN) by (nonlinear_arith)
                requires
                    n >= 1,
                    bottom_top == height - 20 - (n * 36 + (n - 1) * 4),
            ;
        }
    }
    let bottom = layout_sidebar_group(&ui.sidebar.bottom, item_left, item_right, bottom_top, dpi);
    SidebarLayout {
        bounds: device_rect(0, 0, width, height, dpi),
        title: device_rect(28, 20, width - 14, 66, dpi),
        main,
        bottom,
        expanded,
    }
}

/// Logical right edge of footer action `i` of `count`: the actions sit at the right
/// end of the footer, 104 wide with 10 between them.
pub open spec fn footer_action_right(right: int, count: int, i: int) -> int {
    right - 24 - (count - 1 - i) * 114
}

/// `layout` is where the footer of `ui` goes between `left` and `right` above `bottom`.
pub open spec fn footer_placed(layout: FooterLayout, ui: SettingsUi, left: int, right: int, bottom: int, dpi: int) -> bool {
    let actions = ui.footer.actions@;
    &&& layout.bounds == device_rect_spec(left, bottom - FOOTER_HEIGHT, right, bottom, dpi)
    &&& layout.actions@.len() == actions.len()
    &&& forall|i: int|
        0 <= i < actions.len() ==> #[trigger] layout.actions@[i] == (ActionLayout {
            id: actions[i].id,
            area: device_rect_spec(
                footer_action_right(right, actions.len() as int, i) - 104,
                bottom - 54,
                footer_action_right(right, actions.len() as int, i),
                bottom - 14,
                dpi,
            ),
            primary: actions[i].primary,
        })
}

/// What the footer computes between `right` and `bottom` stays within `i32`, and
/// its coordinates scale to `dpi`.
pub open spec fn footer_scales(ui: SettingsUi, right: int, bottom: int, dpi: int) -> bool {
    let count = ui.footer.actions@.len() as int;
    &&& fits_i32(right - 24)
    &&& scales(bottom - FOOTER_HEIGHT, dpi)
    &&& count > 0 ==> scales(right - 24, dpi)
    &&& count > 0 ==> scales(footer_action_right(right, count, 0) - 104, dpi)
    &&& count > 0 ==> fits_i32(right - 24 - count * 114)
}

fn layout_footer(ui: &SettingsUi, left: i32, right: i32, bottom: i32, dpi: i32) -> (r: FooterLayout)
    requires
        scales(left as int, dpi as int),
        scales(right as int, dpi as int),
        scales(bottom as int, dpi as int),
        bottom - FOOTER_HEIGHT <= bottom,
        footer_scales(*ui, right as int, bottom as int, dpi as int),
    ensures
        footer_placed(r, *ui, left as int, right as int, bottom as int, dpi as int),
{
    let count = ui.footer.actions.len();
    let ghost n = count as int;
    let ghost leftmost = footer_action_right(right as int, n, 0) - 104;
    let mut actions: Vec<ActionLayout> = Vec::new();
    proof {
        lemma_scales_between(bottom - FOOTER_HEIGHT, bottom - 54, bottom as int, dpi as int);
        lemma_scales_between(bottom - FOOTER_HEIGHT, bottom - 14, bottom as int, dpi as int);
    }
    if count > 0 {
        let mut first_right = right - 24;
        let mut k: usize = 0;
        while k + 1 < count
            invariant
                0 <= k <= n - 1,
                n == count,
                n > 0,
                first_right == right - 24 - k * 114,
                fits_i32(leftmost),
                leftmost == right - 24 - (n - 1) * 114 - 104,
            decreases n - k,
        {
            first_right = first_right - 114;
            k += 1;
        }
        let mut action_right = first_right;
        let mut index: usize = 0;
        while index < count
            invariant
                0 <= index <= n,
                n == count,
                n > 0,
                count == ui.footer.actions@.len(),
                index < n ==> action_right == footer_action_right(right as int, n, index as int),
                scales(leftmost, dpi as int),
                scales(right - 24, dpi as int),
                leftmost == right - 24 - (n - 1) * 114 - 104,
                scales(bottom - 54, dpi as int),
                scales(bottom - 14, dpi as int),
                actions@.len() == index,
                forall|i: int|
                    0 <= i < index ==> #[trigger] actions@[i] == (ActionLayout {
                        id: ui.footer.actions@[i].id,
                        area: device_rect_spec(
                            footer_action_right(right as int, n, i) - 104,
                            bottom - 54,
                            footer_action_right(right as int, n, i),
                            bottom - 14,
                            dpi as int,
                        ),
                        primary: ui.footer.actions@[i].primary,
                    }),
            decreases n - index,
        {
            let action = ui.footer.actions[index];
            proof {
                lemma_scales_between(leftmost, action_right - 104, right - 24, dpi as int);
                lemma_scales_between(leftmost, action_right as int, right - 24, dpi as int);
            }
            actions.push(
                ActionLayout {
                    id: action.id,
                    area: device_rect(action_right - 104, bottom - 54, action_right, bottom - 14, dpi),
                    primary: action.primary,
                },
            );
            if index + 1 < count {
                action_right = action_right + 114;
            }
            index += 1;
        }
    }
    FooterLayout { bounds: device_rect(left, bottom - FOOTER_HEIGHT, right, bottom, dpi), actions }
}

/// The scrollbar: a track along the right edge of the content and a thumb whose
/// length shows the visible share of the body and whose position shows the
/// scroll position. There is none when nothing scrolls.
pub open spec fn spec_scrollbar(
    width: int,
    height: int,
    viewport_height: int,
    body_height: int,
    scroll_max: int,
    scroll_y: int,
    dpi: int,
) -> Option<ScrollbarLayout> {
    if scroll_max <= 0 {
        None
    } else {
        let track_top = HEADER_HEIGHT + 8;
        let track_bottom = max_int(height - FOOTER_HEIGHT - 8, track_top + 1);
        let track_height = track_bottom - track_top;
        let minimum_thumb = min_int(SCROLLBAR_MIN_THUMB as int, track_height);
        let thumb_height = clamp_int(
            div_toward_zero(track_height * viewport_height, max_int(body_height, 1)),
            minimum_thumb,
            track_height,
        );
        let travel = track_height - thumb_height;
        let thumb_top = track_top + div_toward_zero(travel * scroll_y, scroll_max);
        let left = width - SCROLLBAR_MARGIN - SCROLLBAR_WIDTH;
        let right = width - SCROLLBAR_MARGIN;
        Some(
            ScrollbarLayout {
                track: device_rect_spec(left, track_top, right, track_bottom, dpi),
                thumb: device_rect_spec(left, thumb_top, right, thumb_top + thumb_height, dpi),
            },
        )
    }
}

/// Logical bottom of the scrollbar track in a content area `height` high.
pub open spec fn track_bottom(height: int) -> int {
    max_int(height - FOOTER_HEIGHT - 8, HEADER_HEIGHT + 9)
}

/// Height of the scrollbar track in a content area `height` high.
pub open spec fn track_height(height: int) -> int {
    track_bottom(height) - (HEADER_HEIGHT + 8)
}

/// Height of the thumb: the visible share of the body, held between the
/// smallest thumb (or the whole track, where that is shorter) and the track.
pub open spec fn thumb_height(height: int, viewport_height: int, body_height: int) -> int {
    let track = track_height(height);
    clamp_int(
        div_toward_zero(track * viewport_height, max_int(body_height, 1)),
        min_int(SCROLLBAR_MIN_THUMB as int, track),
        track,
    )
}

/// What the scrollbar computes stays within `i32`, and its coordinates scale to
/// `dpi`.
pub open spec fn scrollbar_scales(
    width: int,
    height: int,
    viewport_height: int,
    body_height: int,
    scroll_max: int,
    scroll_y: int,
    dpi: int,
) -> bool {
    let travel = track_height(height) - thumb_height(height, viewport_height, body_height);
    &&& 0 <= scroll_y <= scroll_max
    &&& fits_i32(height - FOOTER_HEIGHT)
    &&& fits_i32(height - FOOTER_HEIGHT - 8)
    &&& fits_i32(width - SCROLLBAR_MARGIN)
    &&& scales(width - SCROLLBAR_MARGIN - SCROLLBAR_WIDTH, dpi)
    &&& scales(width - SCROLLBAR_MARGIN, dpi)
    &&& scales(track_bottom(height), dpi)
    &&& fits_i32(track_height(height) * viewport_height)
    &&& fits_i32(travel * scroll_y)
}

pub(crate) fn layout_scrollbar(
    width: i32,
    height: i32,
    viewport_height: i32,
    body_height: i32,
    scroll_max: i32,
    scroll_y: i32,
    dpi: i32,
) -> (r: Option<ScrollbarLayout>)
    requires
        scroll_max > 0 ==> scrollbar_scales(
            width as int,
            height as int,
            viewport_height as int,
            body_height as int,
            scroll_max as int,
            scroll_y as int,
            dpi as int,
        ),
    ensures
        r == spec_scrollbar(
            width as int,
            height as int,
            viewport_height as int,
            body_height as int,
            scroll_max as int,
            scroll_y as int,
            dpi as int,
        ),
{
    if scroll_max <= 0 {
        return None;
    }
    let track_top = HEADER_HEIGHT + 8;
    let track_bottom = max_i32(height - FOOTER_HEIGHT - 8, track_top + 1);
    let track_height = track_bottom - track_top;
    let minimum_thumb = min_i32(SCROLLBAR_MIN_THUMB, track_height);
    let thumb_height = clamp_i32(
        track_height * viewport_height / max_i32(body_height, 1),
        minimum_thumb,
        track_height,
    );
    let travel = track_height - thumb_height;
    proof {
        assert(0 <= (travel * scroll_y) / (scroll_max as int) <= travel) by (nonlinear_arith)
            requires
                0 <= travel,
                0 <= scroll_y <= scroll_max,
                0 < scroll_max,
        ;
    }
    let thumb_top = track_top + travel * scroll_y / scroll_max;
    proof {
        assert(scales(0, dpi as int));
        lemma_scales_between(0, track_top as int, track_bottom as int, dpi as int);
        lemma_scales_between(0, thumb_top as int, track_bottom as int, dpi as int);
        lemma_scales_between(0, thumb_top + thumb_height, track_bottom as int, dpi as int);
    }
    Some(
        ScrollbarLayout {
            track: device_rect(
                width - SCROLLBAR_MARGIN - SCROLLBAR_WIDTH,
                track_top,
                width - SCROLLBAR_MARGIN,
                track_bottom,
                dpi,
            ),
            thumb: device_rect(
                width - SCROLLBAR_MARGIN - SCROLLBAR_WIDTH,
                thumb_top,
                width - SCROLLBAR_MARGIN,
                thumb_top + thumb_height,
                dpi,
            ),
        },
    )
}


pub open spec fn layout_logical_width(client: Rect, dpi: int) -> int {
    spec_unscale(client.right - client.left, dpi)
}

pub open spec fn layout_logical_height(client: Rect, dpi: int) -> int {
    spec_unscale(client.bottom - client.top, dpi)
}

/// The sidebar shows its labels from a logical width of 820.
pub open spec fn layout_expanded(logical_width: int) -> bool {
    logical_width >= 820
}

pub open spec fn layout_sidebar_width(logical_width: int) -> int {
    if layout_expanded(logical_width) {
        EXPANDED_SIDEBAR_WIDTH as int
    } else {
        COMPACT_SIDEBAR_WIDTH as int
    }
}

pub open spec fn layout_content_left(logical_width: int) -> int {
    layout_sidebar_width(logical_width) + CONTENT_MARGIN
}

/// The content keeps a margin to the right edge but is at least 280 wide.
pub open spec fn layout_content_right(logical_width: int) -> int {
    max_int(logical_width - CONTENT_MARGIN - 14, layout_content_left(logical_width) + 280)
}

/// Rows stack their control under their text when the content is narrower than 620.
pub open spec fn layout_stacked(logical_width: int) -> bool {
    layout_content_right(logical_width) - layout_content_left(logical_width) < 620
}

pub open spec fn layout_row_height(logical_width: int) -> int {
    if layout_stacked(logical_width) {
        STACKED_ROW_HEIGHT as int
    } else {
        ROW_HEIGHT as int
    }
}

/// Height of the scrolling part between header and footer, at least 1.
pub open spec fn layout_viewport_height(logical_height: int) -> int {
    max_int(logical_height - HEADER_HEIGHT - FOOTER_HEIGHT, 1)
}

pub open spec fn layout_scroll_max(ui: SettingsUi, logical_width: int, logical_height: int) -> int {
    max_int(
        spec_body_height(ui, layout_row_height(logical_width)) - layout_viewport_height(logical_height),
        0,
    )
}

/// The scroll position held to `0..=scroll_max`.
pub open spec fn layout_scroll(ui: SettingsUi, logical_width: int, logical_height: int, scroll_y: int) -> int {
    clamp_int(scroll_y, 0, layout_scroll_max(ui, logical_width, logical_height))
}

/// The inputs for which the layout computes within `i32`: every value the
/// layout computes on the way is an `i32`, and every coordinate it places
/// scales to `dpi` within `i32`.
pub open spec fn layout_inputs_ok(ui: SettingsUi, client: Rect, dpi: int, scroll_y: int) -> bool {
    let w = client.right - client.left;
    let h = client.bottom - client.top;
    let width = layout_logical_width(client, dpi);
    let height = layout_logical_height(client, dpi);
    let right = layout_content_right(width);
    let body = spec_body_height(ui, layout_row_height(width));
    let scroll_max = layout_scroll_max(ui, width, height);
    let scroll = layout_scroll(ui, width, height, scroll_y);
    let top = HEADER_HEIGHT - scroll;
    let blocks = ui.content.sections@.len() + ui.content.sub_sections@.len();
    &&& fits_i32(w)
    &&& fits_i32(h)
    &&& fits_i32(w * 96)
    &&& fits_i32(h * 96)
    &&& fits_i32(width - CONTENT_MARGIN - 14)
    &&& fits_i32(height - HEADER_HEIGHT - FOOTER_HEIGHT)
    &&& scales(width, dpi)
    &&& scales(height, dpi)
    &&& scales(right, dpi)
    &&& fits_i32(body)
    &&& blocks > 0 ==> scales(top, dpi)
    &&& blocks > 0 ==> scales(top + body - BODY_BOTTOM_PADDING, dpi)
    &&& blocks > 0 ==> fits_i32(top + body - BODY_BOTTOM_PADDING + SECTION_GAP)
    &&& sidebar_scales(ui, height, dpi)
    &&& footer_scales(ui, width, height, dpi)
    &&& scroll_max > 0 ==> scrollbar_scales(
        width,
        height,
        layout_viewport_height(height),
        body,
        scroll_max,
        scroll,
        dpi,
    )
}

/// Whether `value` is an `i32` that scales to `dpi` within `i32`.
fn scales_wide(value: i128, dpi: i32) -> (r: bool)
    ensures
        r == scales(value as int, dpi as int),
{
    if value < i32::MIN as i128 || value > i32::MAX as i128 {
        return false;
    }
    proof {
        assert(-2147483648 * 2147483648 <= value * dpi <= 2147483648 * 2147483648) by (nonlinear_arith)
            requires
                -2147483648 <= value <= 2147483647,
                -2147483648 <= dpi <= 2147483647,
        ;
    }
    let product = value * dpi as i128;
    i32::MIN as i128 <= product && product <= i32::MAX as i128
}

/// Whether `value` is an `i32`.
fn fits_wide(value: i128) -> (r: bool)
    ensures
        r == fits_i32(value as int),
{
    i32::MIN as i128 <= value && value <= i32::MAX as i128
}

/// The body height of `ui` with rows `row_height` high, where it is an `i32`.
fn checked_body_height(ui: &SettingsUi, row_height: i32) -> (r: Option<i32>)
    requires
        0 < row_height <= 128,
    ensures
        match r {
            Some(height) => height == spec_body_height(*ui, row_height as int),
            None => !fits_i32(spec_body_height(*ui, row_height as int)),
        },
{
    let ghost sections = ui.content.sections@;
    let ghost subs = ui.content.sub_sections@;
    let ghost body = spec_body_height(*ui, row_height as int);
    proof {
        lemma_body_parts(*ui, row_height as int);
        assert(sections.take(0) =~= Seq::<SettingSection>::empty());
        assert(subs.take(0) =~= Seq::<SettingSubSection>::empty());
        assert(sections.take(sections.len() as int) =~= sections);
        assert(subs.take(subs.len() as int) =~= subs);
    }
    let mut total: i64 = 0;
    let mut k: usize = 0;
    while k < ui.content.sections.len()
        invariant
            0 <= k <= sections.len(),
            sections == ui.content.sections@,
            subs == ui.content.sub_sections@,
            0 < row_height <= 128,
            total == sections_extent(sections.take(k as int), row_height as int),
            0 <= total <= i32::MAX,
        decreases sections.len() - k,
    {
        let count = ui.content.sections[k].items.len();
        proof {
            lemma_section_prefix(sections, k as int + 1, row_height as int);
            assert(sections.take(k as int + 1).drop_last() =~= sections.take(k as int));
            assert(sections.take(k as int + 1).last() == sections[k as int]);
            lemma_block_span(count as int, row_height as int);
            lemma_body_parts(*ui, row_height as int);
        }
        if count > i32::MAX as usize {
            proof {
                assert(count <= count * row_height) by (nonlinear_arith)
                    requires
                        0 <= count,
                        1 <= row_height,
                ;
            }
            return None;
        }
        proof {
            assert(0 <= count * row_height <= 2147483647 * 128) by (nonlinear_arith)
                requires
                    0 <= count <= 2147483647,
                    0 < row_height <= 128,
            ;
        }
        let block: i64 = if count == 0 {
            0
        } else {
            count as i64 * row_height as i64 + (count as i64 - 1) * ROW_GAP as i64
        };
        total = total + SECTION_HEIGHT as i64 + block;
        if total > i32::MAX as i64 {
            return None;
        }
        k += 1;
    }
    proof {
        assert(sections.take(sections.len() as int) =~= sections);
    }
    let mut sub_total: i64 = 0;
    let mut m: usize = 0;
    while m < ui.content.sub_sections.len()
        invariant
            0 <= m <= subs.len(),
            subs == ui.content.sub_sections@,
            sections == ui.content.sections@,
            0 < row_height <= 128,
            total == sections_extent(sections, row_height as int),
            0 <= total <= i32::MAX,
            sub_total == sub_sections_extent(subs.take(m as int), row_height as int),
            0 <= total + sub_total <= i32::MAX,
        decreases subs.len() - m,
    {
        let count = ui.content.sub_sections[m].items.len();
        proof {
            lemma_sub_section_prefix(subs, m as int + 1, row_height as int);
            assert(subs.take(m as int + 1).drop_last() =~= subs.take(m as int));
            assert(subs.take(m as int + 1).last() == subs[m as int]);
            lemma_block_span(count as int, row_height as int);
            lemma_body_parts(*ui, row_height as int);
        }
        if count > i32::MAX as usize {
            proof {
                assert(count <= count * row_height) by (nonlinear_arith)
                    requires
                        0 <= count,
                        1 <= row_height,
                ;
            }
            return None;
        }
        proof {
            assert(0 <= count * row_height <= 2147483647 * 128) by (nonlinear_arith)
                requires
                    0 <= count <= 2147483647,
                    0 < row_height <= 128,
            ;
        }
        let block: i64 = if count == 0 {
            0
        } else {
            count as i64 * row_height as i64 + (count as i64 - 1) * ROW_GAP as i64
        };
        sub_total = sub_total + block;
        if total + sub_total > i32::MAX as i64 {
            return None;
        }
        m += 1;
    }
    proof {
        assert(subs.take(subs.len() as int) =~= subs);
        lemma_body_parts(*ui, row_height as int);
    }
    let blocks: i128 = ui.content.sections.len() as i128 + ui.content.sub_sections.len() as i128;
    let gaps: i128 = if blocks == 0 {
        0
    } else {
        (blocks - 1) * SECTION_GAP as i128
    };
    let body_wide: i128 = total as i128 + sub_total as i128 + gaps + BODY_BOTTOM_PADDING as i128;
    if body_wide > i32::MAX as i128 {
        return None;
    }
    Some(body_wide as i32)
}

/// Whether the layout of `ui` in `client` at `dpi`, scrolled to `scroll_y`,
/// computes within `i32`.
#[verifier::rlimit(100)]
#[verifier::spinoff_prover]
pub fn layout_fits(ui: &SettingsUi, client: Rect, dpi: i32, scroll_y: i32) -> (r: bool)
    ensures
        r == layout_inputs_ok(*ui, client, dpi as int, scroll_y as int),
{
    let w: i64 = client.right as i64 - client.left as i64;
    let h: i64 = client.bottom as i64 - client.top as i64;
    if !fits_wide(w as i128) || !fits_wide(h as i128) || !fits_wide(w as i128 * 96) || !fits_wide(h as i128 * 96) {
        return false;
    }
    let width = unscale(w as i32, dpi);
    let height = unscale(h as i32, dpi);
    if !fits_wide(width as i128 - 46) || !fits_wide(height as i128 - 142) {
        return false;
    }
    let content_left: i32 = if width >= 820 {
        EXPANDED_SIDEBAR_WIDTH + CONTENT_MARGIN
    } else {
        COMPACT_SIDEBAR_WIDTH + CONTENT_MARGIN
    };
    let right = max_i32(width - 46, content_left + 280);
    if !scales_wide(width as i128, dpi) || !scales_wide(height as i128, dpi) || !scales_wide(right as i128, dpi) {
        return false;
    }
    let row_height: i32 = if right - content_left < 620 {
        STACKED_ROW_HEIGHT
    } else {
        ROW_HEIGHT
    };
    let body = match checked_body_height(ui, row_height) {
        Some(body) => body,
        None => {
            return false;
        },
    };
    proof {
        lemma_body_parts(*ui, row_height as int);
    }
    let viewport_height = max_i32(height - 142, 1);
    let scroll_max = max_i32(body - viewport_height, 0);
    let scroll = clamp_i32(scroll_y, 0, scroll_max);
    let top: i128 = HEADER_HEIGHT as i128 - scroll as i128;
    let blocks_ok = if ui.content.sections.len() > 0 || ui.content.sub_sections.len() > 0 {
        scales_wide(top, dpi) && scales_wide(top + body as i128 - 28, dpi) && fits_wide(top + body as i128 - 4)
    } else {
        true
    };
    if !blocks_ok {
        return false;
    }
    let main = ui.sidebar.main.len() as i128;
    let bottom = ui.sidebar.bottom.len() as i128;
    let bottom_height: i128 = if bottom == 0 {
        0
    } else {
        bottom * 36 + (bottom - 1) * 4
    };
    let bottom_top: i128 = height as i128 - 20 - bottom_height;
    let sidebar_ok = (main == 0 || scales_wide(88 + (main - 1) * 40 + 36, dpi)) && fits_wide(bottom * 36)
        && fits_wide(bottom_height) && fits_wide(height as i128 - 20) && fits_wide(bottom_top) && (bottom == 0 || (
    scales_wide(bottom_top, dpi) && scales_wide(height as i128 - 20, dpi)));
    if !sidebar_ok {
        return false;
    }
    let actions = ui.footer.actions.len() as i128;
    let footer_ok = fits_wide(width as i128 - 24) && scales_wide(height as i128 - 68, dpi) && (actions == 0 || (
    scales_wide(width as i128 - 24, dpi) && scales_wide(width as i128 - 24 - (actions - 1) * 114 - 104, dpi)
        && fits_wide(width as i128 - 24 - actions * 114)));
    if !footer_ok {
        return false;
    }
    if scroll_max <= 0 {
        return true;
    }
    let track_bottom = max_i32(height - 76, 83);
    let track = track_bottom - 82;
    proof {
        assert(-2147483648 * 2147483648 <= track * viewport_height <= 2147483648 * 2147483648) by (nonlinear_arith)
            requires
                -2147483648 <= track <= 2147483647,
                -2147483648 <= viewport_height <= 2147483647,
        ;
    }
    let product: i128 = track as i128 * viewport_height as i128;
    if !fits_wide(product) || !fits_wide(height as i128 - 68) || !fits_wide(height as i128 - 76) || !fits_wide(
        width as i128 - 9,
    ) || !scales_wide(width as i128 - 13, dpi) || !scales_wide(width as i128 - 9, dpi) || !scales_wide(
        track_bottom as i128,
        dpi,
    ) {
        return false;
    }
    proof {
        assert(0 < track * viewport_height) by (nonlinear_arith)
            requires
                0 < track,
                0 < viewport_height,
        ;
    }
    let thumb = clamp_i32(track * viewport_height / max_i32(body, 1), min_i32(SCROLLBAR_MIN_THUMB, track), track);
    let travel = track - thumb;
    proof {
        assert(-2147483648 * 2147483648 <= travel * scroll <= 2147483648 * 2147483648) by (nonlinear_arith)
            requires
                -2147483648 <= travel <= 2147483647,
                -2147483648 <= scroll <= 2147483647,
        ;
    }
    fits_wide(travel as i128 * scroll as i128)
}

/// `layout` is the layout of `ui` in `client` at `dpi`, scrolled to `scroll_y`.
pub open spec fn layout_placed(layout: SettingsUiLayout, ui: SettingsUi, client: Rect, dpi: int, scroll_y: int) -> bool {
    let width = layout_logical_width(client, dpi);
    let height = layout_logical_height(client, dpi);
    let sidebar_width = layout_sidebar_width(width);
    let left = layout_content_left(width);
    let right = layout_content_right(width);
    let row_height = layout_row_height(width);
    let stacked = layout_stacked(width);
    let scroll_max = layout_scroll_max(ui, width, height);
    let scroll = layout_scroll(ui, width, height, scroll_y);
    let top = HEADER_HEIGHT - scroll;
    let sections = ui.content.sections@;
    let subs = ui.content.sub_sections@;
    let subs_top = section_top(sections, sections.len() as int, top, row_height);
    &&& sidebar_placed(layout.sidebar, ui, sidebar_width, height, layout_expanded(width), dpi)
    &&& layout.content.bounds == device_rect_spec(sidebar_width, 0, width, height - FOOTER_HEIGHT, dpi)
    &&& layout.content.page_title == device_rect_spec(left, 16, right, 66, dpi)
    &&& layout.content.viewport == device_rect_spec(
        sidebar_width,
        HEADER_HEIGHT as int,
        width,
        height - FOOTER_HEIGHT,
        dpi,
    )
    &&& layout.content.scroll_max == scroll_max
    &&& layout.content.scrollbar == spec_scrollbar(
        width,
        height,
        layout_viewport_height(height),
        spec_body_height(ui, row_height),
        scroll_max,
        scroll,
        dpi,
    )
    &&& layout.content.sections@.len() == sections.len()
    &&& forall|k: int|
        0 <= k < sections.len() ==> section_placed(
            #[trigger] layout.content.sections@[k],
            sections[k],
            left,
            right,
            section_top(sections, k, top, row_height),
            row_height,
            stacked,
            dpi,
        )
    &&& layout.content.sub_sections@.len() == subs.len()
    &&& forall|k: int|
        0 <= k < subs.len() ==> sub_section_placed(
            #[trigger] layout.content.sub_sections@[k],
            subs[k],
            left,
            right,
            sub_section_top(subs, k, subs_top, row_height),
            row_height,
            stacked,
            dpi,
        )
    &&& footer_placed(layout.footer, ui, sidebar_width, width, height, dpi)
}

impl SettingsUiLayout {
    /// Lays out `ui` in the client area `client` at `dpi`, scrolled down by
    /// `scroll_y` logical units (held to the scrollable range).
    pub fn calculate(ui: &SettingsUi, client: Rect, dpi: i32, scroll_y: i32) -> (r: SettingsUiLayout)
        requires
            layout_inputs_ok(*ui, client, dpi as int, scroll_y as int),
        ensures
            layout_placed(r, *ui, client, dpi as int, scroll_y as int),
            r.controls_ok(),
    {
        let logical_width = unscale(client.right - client.left, dpi);
        let logical_height = unscale(client.bottom - client.top, dpi);
        let expanded = logical_width >= 820;
        let sidebar_width = if expanded {
            EXPANDED_SIDEBAR_WIDTH
        } else {
            COMPACT_SIDEBAR_WIDTH
        };
        let content_left = sidebar_width + CONTENT_MARGIN;
        let content_right = max_i32(logical_width - CONTENT_MARGIN - 14, content_left + 280);
        let content_width = content_right - content_left;
        let stacked = content_width < 620;
        let row_height = if stacked {
            STACKED_ROW_HEIGHT
        } else {
            ROW_HEIGHT
        };
        let viewport_height = max_i32(logical_height - HEADER_HEIGHT - FOOTER_HEIGHT, 1);
        let body_height = content_body_height(ui, row_height);
        let scroll_max = max_i32(body_height - viewport_height, 0);
        let scroll_y = clamp_i32(scroll_y, 0, scroll_max);
        let ghost sections_all = ui.content.sections@;
        let ghost subs_all = ui.content.sub_sections@;
        let ghost top = HEADER_HEIGHT - scroll_y;
        proof {
            assert(scales(0, dpi as int));
            lemma_scales_between(0, sidebar_width as int, content_right as int, dpi as int);
            lemma_scales_between(0, content_left as int, content_right as int, dpi as int);
            lemma_scales_between(0, 16, content_right as int, dpi as int);
            lemma_scales_between(0, 66, content_right as int, dpi as int);
            lemma_scales_between(0, HEADER_HEIGHT as int, content_right as int, dpi as int);
            lemma_body_parts(*ui, row_height as int);
            assert(sections_all.take(0) =~= Seq::<SettingSection>::empty());
            assert(sections_all.take(sections_all.len() as int) =~= sections_all);
            assert(subs_all.take(0) =~= Seq::<SettingSubSection>::empty());
            assert(subs_all.take(subs_all.len() as int) =~= subs_all);
            let n = sections_all.len() as int;
            let after = section_top(sections_all, n, top, row_height as int);
            if n > 0 {
                lemma_scales_between(top, after - SECTION_GAP, top + body_height - BODY_BOTTOM_PADDING, dpi as int);
            }
            if subs_all.len() > 0 {
                lemma_scales_between(top, after, top + body_height - BODY_BOTTOM_PADDING, dpi as int);
            }
        }
        let mut y = HEADER_HEIGHT - scroll_y;
        let sections = layout_sections(&ui.content.sections, content_left, content_right, &mut y, row_height, stacked, dpi);
        let sub_sections = layout_sub_sections(&ui.content.sub_sections, content_left, content_right, &mut y, row_height, stacked, dpi);
        let sidebar = layout_sidebar(ui, sidebar_width, logical_height, expanded, dpi);
        let content = ContentLayout {
            bounds: device_rect(sidebar_width, 0, logical_width, logical_height - FOOTER_HEIGHT, dpi),
            page_title: device_rect(content_left, 16, content_right, 66, dpi),
            viewport: device_rect(sidebar_width, HEADER_HEIGHT, logical_width, logical_height - FOOTER_HEIGHT, dpi),
            sections,
            sub_sections,
            scrollbar: layout_scrollbar(logical_width, logical_height, viewport_height, body_height, scroll_max, scroll_y, dpi),
            scroll_max,
        };
        let footer = layout_footer(ui, sidebar_width, logical_width, logical_height, dpi);
        SettingsUiLayout { sidebar, content, footer }
    }
}

impl SettingsUi {
    /// The layout of the page in `client` at `dpi`, scrolled to `scroll_y`.
    pub fn layout(&self, client: Rect, dpi: i32, scroll_y: i32) -> (r: SettingsUiLayout)
        requires
            layout_inputs_ok(*self, client, dpi as int, scroll_y as int),
        ensures
            layout_placed(r, *self, client, dpi as int, scroll_y as int),
            r.controls_ok(),
    {
        SettingsUiLayout::calculate(self, client, dpi, scroll_y)
    }
}


/// What a search of the rows looks for.
#[derive(Clone, Copy, Debug, PartialEq, Eq, Structural)]
pub enum ItemQuery {
    /// The row of a setting.
    Setting(SettingId),
    /// The row whose control contains a point.
    ControlAt(i32, i32),
}

pub open spec fn query_matches(query: ItemQuery, item: SettingItemLayout) -> bool {
    match query {
        ItemQuery::Setting(id) => item.id == id,
        ItemQuery::ControlAt(x, y) => item.control.spec_contains(x as int, y as int),
    }
}

fn item_matches(query: ItemQuery, item: &SettingItemLayout) -> (r: bool)
    ensures
        r == query_matches(query, *item),
{
    match query {
        ItemQuery::Setting(id) => item.id == id,
        ItemQuery::ControlAt(x, y) => contains(item.control, x, y),
    }
}

pub open spec fn section_rows_of(sections: Seq<SectionLayout>) -> Seq<Seq<SettingItemLayout>> {
    sections.map_values(|section: SectionLayout| section.items@)
}

pub open spec fn sub_section_rows_of(sections: Seq<SubSectionLayout>) -> Seq<Seq<SettingItemLayout>> {
    sections.map_values(|section: SubSectionLayout| section.items@)
}

/// The first row that answers `query` in `rows`, as its index.
pub open spec fn is_first_match(rows: Seq<SettingItemLayout>, query: ItemQuery, p: int) -> bool {
    &&& 0 <= p < rows.len()
    &&& query_matches(query, rows[p])
    &&& forall|q: int| 0 <= q < p ==> !query_matches(query, #[trigger] rows[q])
}

/// The first row of `rows` that answers `query`.
pub open spec fn spec_find(rows: Seq<SettingItemLayout>, query: ItemQuery) -> Option<SettingItemLayout> {
    if exists|p: int| is_first_match(rows, query, p) {
        Some(rows[choose|p: int| is_first_match(rows, query, p)])
    } else {
        None
    }
}

/// `p` is the first footer action whose area contains `(x, y)`.
pub open spec fn first_action_at(actions: Seq<ActionLayout>, x: i32, y: i32, p: int) -> bool {
    &&& 0 <= p < actions.len()
    &&& actions[p].area.spec_contains(x as int, y as int)
    &&& forall|q: int| 0 <= q < p ==> !(#[trigger] actions[q]).area.spec_contains(x as int, y as int)
}

proof fn lemma_first_action(actions: Seq<ActionLayout>, x: i32, y: i32, p: int)
    requires
        first_action_at(actions, x, y, p),
    ensures
        (choose|c: int| first_action_at(actions, x, y, c)) == p,
{
    let c = choose|c: int| first_action_at(actions, x, y, c);
    if c < p {
        assert(!actions[c].area.spec_contains(x as int, y as int));
    } else if p < c {
        assert(!actions[p].area.spec_contains(x as int, y as int));
    }
}

/// A first match is the one `spec_find` gives.
pub proof fn lemma_find_first(rows: Seq<SettingItemLayout>, query: ItemQuery, p: int)
    requires
        is_first_match(rows, query, p),
    ensures
        spec_find(rows, query) == Some(rows[p]),
{
    let c = choose|c: int| is_first_match(rows, query, c);
    assert(c == p) by {
        if c < p {
            assert(!query_matches(query, rows[c]));
        } else if p < c {
            assert(!query_matches(query, rows[p]));
        }
    }
}

proof fn lemma_flatten_index(s: Seq<Seq<SettingItemLayout>>, k: int, i: int)
    requires
        0 <= k < s.len(),
        0 <= i < s[k].len(),
    ensures
        s.take(k).flatten().len() + i < s.flatten().len(),
        s.flatten()[s.take(k).flatten().len() + i] == s[k][i],
        s.take(k + 1).flatten().len() == s.take(k).flatten().len() + s[k].len(),
{
    let pre = s.take(k + 1);
    let post = s.skip(k + 1);
    assert(s =~= pre + post);
    vstd::seq_lib::lemma_flatten_concat(pre, post);
    assert(pre =~= s.take(k).push(s[k]));
    s.take(k).lemma_flatten_push(s[k]);
}

proof fn lemma_flatten_step(s: Seq<Seq<SettingItemLayout>>, k: int)
    requires
        0 <= k < s.len(),
    ensures
        s.take(k + 1).flatten().len() == s.take(k).flatten().len() + s[k].len(),
{
    assert(s.take(k + 1) =~= s.take(k).push(s[k]));
    s.take(k).lemma_flatten_push(s[k]);
}

/// How far the thumb of `bar` can travel along its track, in device pixels.
pub open spec fn thumb_travel(bar: ScrollbarLayout) -> int {
    (bar.track.bottom - bar.track.top) - (bar.thumb.bottom - bar.thumb.top)
}

/// The scroll position, out of `scroll_max`, for a thumb of `scrollbar` whose
/// top edge is at `thumb_top`: in proportion to how far the thumb is along the
/// track, 0 where there is no scrollbar or the thumb cannot move.
pub open spec fn spec_thumb_scroll(scrollbar: Option<ScrollbarLayout>, scroll_max: int, thumb_top: int) -> int {
    match scrollbar {
        Some(bar) => {
            let travel = thumb_travel(bar);
            if travel <= 0 {
                0
            } else {
                clamp_int(
                    div_toward_zero(clamp_int(thumb_top - bar.track.top, 0, travel) * scroll_max, travel),
                    0,
                    max_int(scroll_max, 0),
                )
            }
        },
        None => 0,
    }
}

/// Dragging the thumb to the top of its track scrolls to the top; dragging it to
/// the end of its travel scrolls to the end.
pub proof fn lemma_thumb_scroll_ends(bar: ScrollbarLayout, scroll_max: int)
    requires
        thumb_travel(bar) > 0,
        scroll_max >= 0,
    ensures
        spec_thumb_scroll(Some(bar), scroll_max, bar.track.top as int) == 0,
        spec_thumb_scroll(Some(bar), scroll_max, bar.track.top + thumb_travel(bar)) == scroll_max,
{
    let travel = thumb_travel(bar);
    assert(travel * scroll_max / travel == scroll_max) by (nonlinear_arith)
        requires
            travel > 0,
    ;
    assert(0 * scroll_max == 0);
}

/// Dragging the thumb further down never scrolls the page up.
pub proof fn lemma_thumb_scroll_monotonic(bar: ScrollbarLayout, scroll_max: int, upper: int, lower: int)
    requires
        scroll_max >= 0,
        upper <= lower,
    ensures
        spec_thumb_scroll(Some(bar), scroll_max, upper) <= spec_thumb_scroll(Some(bar), scroll_max, lower),
{
    let travel = thumb_travel(bar);
    if travel > 0 {
        let a = clamp_int(upper - bar.track.top, 0, travel);
        let b = clamp_int(lower - bar.track.top, 0, travel);
        assert(a <= b);
        assert(a * scroll_max / travel <= b * scroll_max / travel) by (nonlinear_arith)
            requires
                0 <= a <= b,
                scroll_max >= 0,
                travel > 0,
        ;
        assert(0 <= a * scroll_max) by (nonlinear_arith)
            requires
                0 <= a,
                scroll_max >= 0,
        ;
    }
}

/// The scroll position for a thumb of `scrollbar` dragged so that its top edge
/// is at `thumb_top`.
pub fn thumb_scroll(scrollbar: Option<ScrollbarLayout>, scroll_max: i32, thumb_top: i64) -> (r: i32)
    requires
        scroll_max >= 0,
    ensures
        r == spec_thumb_scroll(scrollbar, scroll_max as int, thumb_top as int),
        0 <= r <= scroll_max,
{
    let scrollbar = match scrollbar {
        Some(scrollbar) => scrollbar,
        None => return 0,
    };
    let travel: i128 = (scrollbar.track.bottom as i128 - scrollbar.track.top as i128) - (scrollbar.thumb.bottom as i128
        - scrollbar.thumb.top as i128);
    if travel <= 0 {
        return 0;
    }
    let offset: i128 = thumb_top as i128 - scrollbar.track.top as i128;
    let along: i128 = if offset < 0 {
        0
    } else if offset > travel {
        travel
    } else {
        offset
    };
    let max = scroll_max as i128;
    proof {
        assert(0 <= along * max <= travel * max) by (nonlinear_arith)
            requires
                0 <= along <= travel,
                0 <= max,
        ;
        assert(travel * max <= 0x2_0000_0000 * 0x8000_0000) by (nonlinear_arith)
            requires
                0 < travel <= 0x2_0000_0000,
                0 <= max <= 0x8000_0000,
        ;
    }
    let scaled: i128 = along * max / travel;
    proof {
        assert(scaled <= max) by (nonlinear_arith)
            requires
                scaled as int == (along as int * max as int) / (travel as int),
                0 <= along <= travel,
                0 < travel,
                0 <= max,
        ;
    }
    scaled as i32
}

impl SettingsUiLayout {
    /// Every row's control lies within the device coordinate range.
    pub open spec fn controls_ok(self) -> bool {
        &&& forall|k: int| 0 <= k < self.content.sections@.len() ==> rows_ok(#[trigger] self.content.sections@[k].items@)
        &&& forall|k: int|
            0 <= k < self.content.sub_sections@.len() ==> rows_ok(#[trigger] self.content.sub_sections@[k].items@)
    }

    /// The rows of the sections, then those of the sub-sections.
    pub open spec fn all_items(self) -> Seq<SettingItemLayout> {
        section_rows_of(self.content.sections@).flatten() + sub_section_rows_of(
            self.content.sub_sections@,
        ).flatten()
    }

    /// The first row, in page order, that answers `query`.
    pub fn find_item(&self, query: ItemQuery) -> (r: Option<SettingItemLayout>)
        ensures
            match r {
                Some(item) => exists|p: int| is_first_match(self.all_items(), query, p) && self.all_items()[p] == item,
                None => forall|q: int| 0 <= q < self.all_items().len() ==> !query_matches(query, #[trigger] self.all_items()[q]),
            },
            self.controls_ok() && r is Some ==> device_rect_ok(r->0.control),
            r == spec_find(self.all_items(), query),
    {
        let ghost first = section_rows_of(self.content.sections@);
        let ghost second = sub_section_rows_of(self.content.sub_sections@);
        let ghost all = self.all_items();
        let mut k: usize = 0;
        proof {
            assert(first.take(0) =~= Seq::<Seq<SettingItemLayout>>::empty());
        }
        while k < self.content.sections.len()
            invariant
                0 <= k <= self.content.sections@.len(),
                first == section_rows_of(self.content.sections@),
                all == first.flatten() + second.flatten(),
                all == self.all_items(),
                forall|q: int| 0 <= q < first.take(k as int).flatten().len() ==> !query_matches(query, #[trigger] all[q]),
            decreases self.content.sections@.len() - k,
        {
            let items = &self.content.sections[k].items;
            let mut i: usize = 0;
            proof {
                lemma_flatten_step(first, k as int);
            }
            while i < items.len()
                invariant
                    0 <= k < self.content.sections@.len(),
                    0 <= i <= items@.len(),
                    items@ == first[k as int],
                    items@ == self.content.sections@[k as int].items@,
                    first == section_rows_of(self.content.sections@),
                    all == first.flatten() + second.flatten(),
                    all == self.all_items(),
                    first.take(k as int + 1).flatten().len() == first.take(k as int).flatten().len() + first[k as int].len(),
                    forall|q: int| 0 <= q < first.take(k as int).flatten().len() + i ==> !query_matches(query, #[trigger] all[q]),
                decreases items@.len() - i,
            {
                proof {
                    lemma_flatten_index(first, k as int, i as int);
                }
                if item_matches(query, &items[i]) {
                    proof {
                        let p = first.take(k as int).flatten().len() + i;
                        assert(all[p] == items@[i as int]);
                        assert(is_first_match(all, query, p));
                        lemma_find_first(all, query, p);
                    }
                    return Some(items[i]);
                }
                i += 1;
            }
            k += 1;
        }
        proof {
            assert(first.take(first.len() as int) =~= first);
            assert(second.take(0) =~= Seq::<Seq<SettingItemLayout>>::empty());
        }
        let ghost base = first.flatten().len();
        let mut m: usize = 0;
        while m < self.content.sub_sections.len()
            invariant
                0 <= m <= self.content.sub_sections@.len(),
                second == sub_section_rows_of(self.content.sub_sections@),
                all == first.flatten() + second.flatten(),
                all == self.all_items(),
                base == first.flatten().len(),
                forall|q: int| 0 <= q < base + second.take(m as int).flatten().len() ==> !query_matches(query, #[trigger] all[q]),
            decreases self.content.sub_sections@.len() - m,
        {
            let items = &self.content.sub_sections[m].items;
            let mut i: usize = 0;
            proof {
                lemma_flatten_step(second, m as int);
            }
            while i < items.len()
                invariant
                    0 <= m < self.content.sub_sections@.len(),
                    0 <= i <= items@.len(),
                    items@ == second[m as int],
                    items@ == self.content.sub_sections@[m as int].items@,
                    second == sub_section_rows_of(self.content.sub_sections@),
                    all == first.flatten() + second.flatten(),
                    all == self.all_items(),
                    base == first.flatten().len(),
                    second.take(m as int + 1).flatten().len() == second.take(m as int).flatten().len() + second[m as int].len(),
                    forall|q: int| 0 <= q < base + second.take(m as int).flatten().len() + i ==> !query_matches(query, #[trigger] all[q]),
                decreases items@.len() - i,
            {
                proof {
                    lemma_flatten_index(second, m as int, i as int);
                }
                if item_matches(query, &items[i]) {
                    proof {
                        let p = base + second.take(m as int).flatten().len() + i;
                        assert(all[p] == items@[i as int]);
                        assert(is_first_match(all, query, p));
                        lemma_find_first(all, query, p);
                    }
                    return Some(items[i]);
                }
                i += 1;
            }
            m += 1;
        }
        proof {
            assert(second.take(second.len() as int) =~= second);
            assert(!exists|p: int| is_first_match(all, query, p)) by {
                if exists|p: int| is_first_match(all, query, p) {
                    let p = choose|p: int| is_first_match(all, query, p);
                    assert(!query_matches(query, all[p]));
                }
            }
        }
        None
    }

    /// The row of setting `id`, if the page has one.
    pub fn item(&self, id: SettingId) -> (r: Option<SettingItemLayout>)
        ensures
            match r {
                Some(item) => exists|p: int| is_first_match(self.all_items(), ItemQuery::Setting(id), p) && self.all_items()[p] == item,
                None => forall|q: int| 0 <= q < self.all_items().len() ==> (#[trigger] self.all_items()[q]).id != id,
            },
            self.controls_ok() && r is Some ==> device_rect_ok(r->0.control),
            r == spec_find(self.all_items(), ItemQuery::Setting(id)),
    {
        let r = self.find_item(ItemQuery::Setting(id));
        proof {
            if r is None {
                assert forall|q: int| 0 <= q < self.all_items().len() implies (#[trigger] self.all_items()[q]).id != id by {
                    assert(!query_matches(ItemQuery::Setting(id), self.all_items()[q]));
                }
            }
        }
        r
    }

    /// The setting of the first row whose control contains `(x, y)`.
    pub fn hit_control(&self, x: i32, y: i32) -> (r: Option<SettingId>)
        ensures
            match r {
                Some(id) => exists|p: int| is_first_match(self.all_items(), ItemQuery::ControlAt(x, y), p) && self.all_items()[p].id == id,
                None => forall|q: int| 0 <= q < self.all_items().len() ==> !(#[trigger] self.all_items()[q]).control.spec_contains(x as int, y as int),
            },
            r == (match spec_find(self.all_items(), ItemQuery::ControlAt(x, y)) {
                Some(item) => Some(item.id),
                None => None,
            }),
    {
        let r = self.find_item(ItemQuery::ControlAt(x, y));
        proof {
            if r is None {
                assert forall|q: int| 0 <= q < self.all_items().len() implies !(#[trigger] self.all_items()[q]).control.spec_contains(x as int, y as int) by {
                    assert(!query_matches(ItemQuery::ControlAt(x, y), self.all_items()[q]));
                }
            }
        }
        match r {
            Some(item) => Some(item.id),
            None => None,
        }
    }

    /// The first footer action whose area contains `(x, y)`.
    pub open spec fn spec_action_at(self, x: i32, y: i32) -> Option<ActionId> {
        let actions = self.footer.actions@;
        if exists|p: int| first_action_at(actions, x, y, p) {
            Some(actions[choose|p: int| first_action_at(actions, x, y, p)].id)
        } else {
            None
        }
    }

    /// The first footer action whose area contains `(x, y)`.
    pub fn hit_action(&self, x: i32, y: i32) -> (r: Option<ActionId>)
        ensures
            match r {
                Some(id) => exists|p: int|
                    0 <= p < self.footer.actions@.len() && self.footer.actions@[p].id == id
                        && self.footer.actions@[p].area.spec_contains(x as int, y as int) && forall|q: int|
                        0 <= q < p ==> !(#[trigger] self.footer.actions@[q]).area.spec_contains(x as int, y as int),
                None => forall|q: int|
                    0 <= q < self.footer.actions@.len() ==> !(#[trigger] self.footer.actions@[q]).area.spec_contains(x as int, y as int),
            },
            r == self.spec_action_at(x, y),
    {
        let mut index: usize = 0;
        while index < self.footer.actions.len()
            invariant
                0 <= index <= self.footer.actions@.len(),
                forall|q: int| 0 <= q < index ==> !(#[trigger] self.footer.actions@[q]).area.spec_contains(x as int, y as int),
            decreases self.footer.actions@.len() - index,
        {
            let action = self.footer.actions[index];
            if contains(action.area, x, y) {
                proof {
                    assert(first_action_at(self.footer.actions@, x, y, index as int));
                    lemma_first_action(self.footer.actions@, x, y, index as int);
                }
                return Some(action.id);
            }
            index += 1;
        }
        proof {
            assert(!exists|p: int| first_action_at(self.footer.actions@, x, y, p)) by {
                if exists|p: int| first_action_at(self.footer.actions@, x, y, p) {
                    let p = choose|p: int| first_action_at(self.footer.actions@, x, y, p);
                    assert(!self.footer.actions@[p].area.spec_contains(x as int, y as int));
                }
            }
        }
        None
    }

    /// Whether `(x, y)` is on the scrollbar thumb.
    pub fn hit_scroll_thumb(&self, x: i32, y: i32) -> (r: bool)
        ensures
            r == (self.content.scrollbar matches Some(bar) && bar.thumb.spec_contains(x as int, y as int)),
    {
        match self.content.scrollbar {
            Some(scrollbar) => contains(scrollbar.thumb, x, y),
            None => false,
        }
    }

    /// Whether `(x, y)` is on the scrollbar track.
    pub fn hit_scroll_track(&self, x: i32, y: i32) -> (r: bool)
        ensures
            r == (self.content.scrollbar matches Some(bar) && bar.track.spec_contains(x as int, y as int)),
    {
        match self.content.scrollbar {
            Some(scrollbar) => contains(scrollbar.track, x, y),
            None => false,
        }
    }

    /// The scroll position for a thumb whose top edge is at `thumb_top`.
    pub open spec fn spec_scroll_from_thumb(self, thumb_top: int) -> int {
        spec_thumb_scroll(self.content.scrollbar, self.content.scroll_max as int, thumb_top)
    }

    /// The scroll position for a thumb dragged so that its top edge is at
    /// `thumb_top`, in proportion to how far it is along the track.
    pub fn scroll_from_thumb(&self, thumb_top: i64) -> (r: i32)
        requires
            self.content.scroll_max >= 0,
        ensures
            r == self.spec_scroll_from_thumb(thumb_top as int),
            0 <= r <= self.content.scroll_max,
    {
        thumb_scroll(self.content.scrollbar, self.content.scroll_max, thumb_top)
    }
}

} // verus!

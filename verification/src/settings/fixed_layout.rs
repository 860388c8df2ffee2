//! The layout of the first settings page, whose five rows are fixed: three
//! sliders of the menu background and two choices of the tiles, each group
//! under its title, with the undo and save buttons at the bottom right.

use super::item::{ControlKind, SettingId, SettingItem, SettingItemLayout};
use super::layout::{
    COMPACT_SIDEBAR_WIDTH, CONTENT_MARGIN, EXPANDED_SIDEBAR_WIDTH, FOOTER_HEIGHT, HEADER_HEIGHT,
    ROW_GAP, ROW_HEIGHT, SECTION_GAP, SECTION_HEIGHT, STACKED_ROW_HEIGHT, SCROLLBAR_MIN_THUMB, ScrollbarLayout,
    clamp_i32, clamp_int, columns_scale, contains, device_rect, device_rect_spec, lemma_item_scales, lemma_scales_between, scales,
    scrollbar_scales, layout_item, layout_scrollbar, max_i32,
    max_int, spec_layout_item, spec_scrollbar, spec_thumb_scroll, thumb_scroll,
};
use crate::geometry::{Rect, fits_i32, scale, spec_scale, spec_unscale, unscale};
use vstd::prelude::*;

verus! {

/// Where everything of the fixed page goes, in device pixels.
pub struct SettingsLayout {
    pub sidebar: Rect,
    pub sidebar_nav: Rect,
    pub settings_title: Rect,
    pub page_title: Rect,
    pub menu_section_title: Rect,
    pub tile_section_title: Rect,
    pub undo_button: Rect,
    pub save_button: Rect,
    pub rows: Vec<SettingItemLayout>,
    pub scrollbar: Option<ScrollbarLayout>,
    pub expanded_sidebar: bool,
    pub viewport_top: i32,
    pub viewport_bottom: i32,
    pub scroll_max: i32,
}

/// The rows of the menu background group.
pub open spec fn menu_rows() -> Seq<SettingItem> {
    seq![
        SettingItem { id: SettingId::Overlay, control: ControlKind::Slider },
        SettingItem { id: SettingId::Blur, control: ControlKind::Slider },
        SettingItem { id: SettingId::AnimationDuration, control: ControlKind::Slider },
    ]
}

/// The rows of the tiles group.
pub open spec fn tile_rows() -> Seq<SettingItem> {
    seq![
        SettingItem { id: SettingId::BarColumns, control: ControlKind::Choice },
        SettingItem { id: SettingId::TilesPerRow, control: ControlKind::Choice },
    ]
}

pub open spec fn fixed_width(client: Rect, dpi: int) -> int {
    spec_unscale(client.right - client.left, dpi)
}

pub open spec fn fixed_height(client: Rect, dpi: int) -> int {
    spec_unscale(client.bottom - client.top, dpi)
}

pub open spec fn fixed_sidebar_width(width: int) -> int {
    if width >= 820 {
        EXPANDED_SIDEBAR_WIDTH as int
    } else {
        COMPACT_SIDEBAR_WIDTH as int
    }
}

pub open spec fn fixed_content_left(width: int) -> int {
    fixed_sidebar_width(width) + CONTENT_MARGIN
}

pub open spec fn fixed_content_right(width: int) -> int {
    max_int(width - CONTENT_MARGIN - 14, fixed_content_left(width) + 280)
}

pub open spec fn fixed_stacked(width: int) -> bool {
    fixed_content_right(width) - fixed_content_left(width) < 620
}

pub open spec fn fixed_row_height(width: int) -> int {
    if fixed_stacked(width) {
        STACKED_ROW_HEIGHT as int
    } else {
        ROW_HEIGHT as int
    }
}

pub open spec fn fixed_viewport_height(height: int) -> int {
    max_int(height - HEADER_HEIGHT - FOOTER_HEIGHT, 1)
}

/// Logical height of the two groups: titles, five rows with their gaps, the gap
/// between the groups and the padding below.
pub open spec fn fixed_body_height(row_height: int) -> int {
    SECTION_HEIGHT + row_height * 3 + ROW_GAP * 2 + SECTION_GAP + SECTION_HEIGHT + row_height * 2 + ROW_GAP + 28
}

pub open spec fn fixed_scroll_max(width: int, height: int) -> int {
    max_int(fixed_body_height(fixed_row_height(width)) - fixed_viewport_height(height), 0)
}

/// Logical height of the scrollbar track for a window `height` high.
pub open spec fn fixed_track_height(height: int) -> int {
    max_int(height - FOOTER_HEIGHT - 8, HEADER_HEIGHT + 9) - (HEADER_HEIGHT + 8)
}

/// The inputs for which the layout is defined: every value the page computes on
/// the way is an `i32`, every coordinate it places scales to `dpi` within `i32`,
/// and, where the page scrolls, the track can hold the smallest thumb.
pub open spec fn fixed_inputs_ok(client: Rect, dpi: int, scroll_y: int) -> bool {
    let w = client.right - client.left;
    let h = client.bottom - client.top;
    let width = fixed_width(client, dpi);
    let height = fixed_height(client, dpi);
    let body = fixed_body_height(fixed_row_height(width));
    let scroll_max = fixed_scroll_max(width, height);
    let scroll = clamp_int(scroll_y, 0, scroll_max);
    let top = HEADER_HEIGHT - scroll;
    &&& fits_i32(w)
    &&& fits_i32(h)
    &&& fits_i32(w * 96)
    &&& fits_i32(h * 96)
    &&& fits_i32(width - CONTENT_MARGIN - 14)
    &&& fits_i32(height - HEADER_HEIGHT - FOOTER_HEIGHT)
    &&& scales(height, dpi)
    &&& scales(height - FOOTER_HEIGHT, dpi)
    &&& scales(fixed_content_right(width), dpi)
    &&& scales(top, dpi)
    &&& scales(top + body - 28, dpi)
    &&& fits_i32(top + body - 24)
    &&& scales(width - 242, dpi)
    &&& scales(width - 24, dpi)
    &&& scroll_max > 0 ==> scrollbar_scales(width, height, fixed_viewport_height(height), body, scroll_max, scroll, dpi)
    &&& scroll_max > 0 ==> fixed_track_height(height) >= SCROLLBAR_MIN_THUMB
}

/// `layout` is the layout of the fixed page in `client` at `dpi`, scrolled to
/// `scroll_y`.
pub open spec fn fixed_placed(layout: SettingsLayout, client: Rect, dpi: int, scroll_y: int) -> bool {
    let width = fixed_width(client, dpi);
    let height = fixed_height(client, dpi);
    let sidebar_width = fixed_sidebar_width(width);
    let left = fixed_content_left(width);
    let right = fixed_content_right(width);
    let row_height = fixed_row_height(width);
    let stacked = fixed_stacked(width);
    let scroll_max = fixed_scroll_max(width, height);
    let scroll = clamp_int(scroll_y, 0, scroll_max);
    let menu_top = HEADER_HEIGHT - scroll;
    let tile_top = menu_top + SECTION_HEIGHT + 3 * (row_height + ROW_GAP) + SECTION_GAP - ROW_GAP;
    &&& layout.sidebar == device_rect_spec(0, 0, sidebar_width, height, dpi)
    &&& layout.sidebar_nav == device_rect_spec(14, 88, sidebar_width - 14, 140, dpi)
    &&& layout.settings_title == device_rect_spec(28, 20, sidebar_width - 14, 66, dpi)
    &&& layout.page_title == device_rect_spec(left, 16, right, 66, dpi)
    &&& layout.menu_section_title == device_rect_spec(left, menu_top, right, menu_top + SECTION_HEIGHT, dpi)
    &&& layout.tile_section_title == device_rect_spec(left, tile_top, right, tile_top + SECTION_HEIGHT, dpi)
    &&& layout.save_button == device_rect_spec(width - 128, height - 54, width - 24, height - 14, dpi)
    &&& layout.undo_button == device_rect_spec(width - 242, height - 54, width - 138, height - 14, dpi)
    &&& layout.rows@.len() == 5
    &&& layout.rows@[0] == spec_layout_item(menu_rows()[0], left, right, menu_top + SECTION_HEIGHT, row_height, stacked, dpi)
    &&& layout.rows@[1] == spec_layout_item(
        menu_rows()[1],
        left,
        right,
        menu_top + SECTION_HEIGHT + (row_height + ROW_GAP),
        row_height,
        stacked,
        dpi,
    )
    &&& layout.rows@[2] == spec_layout_item(
        menu_rows()[2],
        left,
        right,
        menu_top + SECTION_HEIGHT + 2 * (row_height + ROW_GAP),
        row_height,
        stacked,
        dpi,
    )
    &&& layout.rows@[3] == spec_layout_item(tile_rows()[0], left, right, tile_top + SECTION_HEIGHT, row_height, stacked, dpi)
    &&& layout.rows@[4] == spec_layout_item(
        tile_rows()[1],
        left,
        right,
        tile_top + SECTION_HEIGHT + (row_height + ROW_GAP),
        row_height,
        stacked,
        dpi,
    )
    &&& layout.scrollbar == spec_scrollbar(
        width,
        height,
        fixed_viewport_height(height),
        fixed_body_height(row_height),
        scroll_max,
        scroll,
        dpi,
    )
    &&& layout.expanded_sidebar == (width >= 820)
    &&& layout.viewport_top == spec_scale(HEADER_HEIGHT as int, dpi)
    &&& layout.viewport_bottom == spec_scale(height - FOOTER_HEIGHT, dpi)
    &&& layout.scroll_max == scroll_max
}

impl SettingsLayout {
    /// Lays out the fixed page in the client area `client` at `dpi`, scrolled
    /// down by `scroll_y` logical units (held to the scrollable range).
    #[verifier::rlimit(100)]
    pub fn calculate(client: Rect, dpi: i32, scroll_y: i32) -> (r: Self)
        requires
            fixed_inputs_ok(client, dpi as int, scroll_y as int),
        ensures
            fixed_placed(r, client, dpi as int, scroll_y as int),
    {
        let logical_width = unscale(client.right - client.left, dpi);
        let logical_height = unscale(client.bottom - client.top, dpi);
        let expanded_sidebar = logical_width >= 820;
        let sidebar_width = if expanded_sidebar {
            EXPANDED_SIDEBAR_WIDTH
        } else {
            COMPACT_SIDEBAR_WIDTH
        };
        let content_left = sidebar_width + CONTENT_MARGIN;
        let content_right = max_i32(logical_width - CONTENT_MARGIN - 14, content_left + 280);
        let content_width = content_right - content_left;
        let stacked = content_width < 620;
        let row_height = if stacked {
            STACKED_ROW_HEIGHT
        } else {
            ROW_HEIGHT
        };
        let viewport_height = max_i32(logical_height - HEADER_HEIGHT - FOOTER_HEIGHT, 1);
        let body_height = SECTION_HEIGHT + row_height * 3 + ROW_GAP * 2 + SECTION_GAP + SECTION_HEIGHT + row_height * 2
            + ROW_GAP + 28;
        let scroll_max = max_i32(body_height - viewport_height, 0);
        let scroll_y = clamp_i32(scroll_y, 0, scroll_max);
        let ghost top = HEADER_HEIGHT - scroll_y;
        let ghost last = top + body_height - 28;
        let ghost step = row_height + ROW_GAP;
        let ghost t0 = top + SECTION_HEIGHT;
        let ghost t3 = t0 + 3 * step + SECTION_GAP - ROW_GAP + SECTION_HEIGHT;
        proof {
            assert(scales(0, dpi as int));
            lemma_scales_between(0, content_left as int, content_right as int, dpi as int);
            assert(columns_scale(content_left as int, content_right as int, dpi as int));
            lemma_scales_between(top, t0, last, dpi as int);
            lemma_scales_between(top, t0 + row_height, last, dpi as int);
            lemma_item_scales(content_left as int, content_right as int, t0, row_height as int, stacked, dpi as int);
            lemma_scales_between(top, t0 + step, last, dpi as int);
            lemma_scales_between(top, t0 + step + row_height, last, dpi as int);
            lemma_item_scales(content_left as int, content_right as int, t0 + step, row_height as int, stacked, dpi as int);
            lemma_scales_between(top, t0 + 2 * step, last, dpi as int);
            lemma_scales_between(top, t0 + 2 * step + row_height, last, dpi as int);
            lemma_item_scales(content_left as int, content_right as int, t0 + 2 * step, row_height as int, stacked, dpi as int);
            lemma_scales_between(top, t3 - SECTION_HEIGHT, last, dpi as int);
            lemma_scales_between(top, t3, last, dpi as int);
            lemma_scales_between(top, t3 + row_height, last, dpi as int);
            lemma_item_scales(content_left as int, content_right as int, t3, row_height as int, stacked, dpi as int);
            lemma_scales_between(top, t3 + step, last, dpi as int);
            lemma_scales_between(top, t3 + step + row_height, last, dpi as int);
            lemma_item_scales(content_left as int, content_right as int, t3 + step, row_height as int, stacked, dpi as int);
        }
        let mut y = HEADER_HEIGHT - scroll_y;
        let menu_section_title = device_rect(content_left, y, content_right, y + SECTION_HEIGHT, dpi);
        y = y + SECTION_HEIGHT;
        let ghost menu_top = HEADER_HEIGHT - scroll_y;
        let mut rows: Vec<SettingItemLayout> = Vec::new();
        rows.push(
            layout_item(
                SettingItem { id: SettingId::Overlay, control: ControlKind::Slider },
                content_left,
                content_right,
                y,
                row_height,
                stacked,
                dpi,
            ),
        );
        y = y + row_height + ROW_GAP;
        rows.push(
            layout_item(
                SettingItem { id: SettingId::Blur, control: ControlKind::Slider },
                content_left,
                content_right,
                y,
                row_height,
                stacked,
                dpi,
            ),
        );
        y = y + row_height + ROW_GAP;
        rows.push(
            layout_item(
                SettingItem { id: SettingId::AnimationDuration, control: ControlKind::Slider },
                content_left,
                content_right,
                y,
                row_height,
                stacked,
                dpi,
            ),
        );
        y = y + row_height + ROW_GAP;
        y = y + SECTION_GAP - ROW_GAP;
        let tile_section_title = device_rect(content_left, y, content_right, y + SECTION_HEIGHT, dpi);
        y = y + SECTION_HEIGHT;
        rows.push(
            layout_item(
                SettingItem { id: SettingId::BarColumns, control: ControlKind::Choice },
                content_left,
                content_right,
                y,
                row_height,
                stacked,
                dpi,
            ),
        );
        y = y + row_height + ROW_GAP;
        rows.push(
            layout_item(
                SettingItem { id: SettingId::TilesPerRow, control: ControlKind::Choice },
                content_left,
                content_right,
                y,
                row_height,
                stacked,
                dpi,
            ),
        );
        proof {
            lemma_scales_between(logical_width - 242, logical_width - 128, logical_width - 24, dpi as int);
            lemma_scales_between(logical_width - 242, logical_width - 138, logical_width - 24, dpi as int);
            lemma_scales_between(logical_height - FOOTER_HEIGHT, logical_height - 54, logical_height as int, dpi as int);
            lemma_scales_between(logical_height - FOOTER_HEIGHT, logical_height - 14, logical_height as int, dpi as int);
        }
        let save_button = device_rect(
            logical_width - 128,
            logical_height - 54,
            logical_width - 24,
            logical_height - 14,
            dpi,
        );
        let undo_button = device_rect(
            logical_width - 242,
            logical_height - 54,
            logical_width - 138,
            logical_height - 14,
            dpi,
        );
        let scrollbar = layout_scrollbar(
            logical_width,
            logical_height,
            viewport_height,
            body_height,
            scroll_max,
            scroll_y,
            dpi,
        );
        proof {
            lemma_scales_between(0, sidebar_width as int, content_right as int, dpi as int);
            lemma_scales_between(0, 14, content_right as int, dpi as int);
            lemma_scales_between(0, 20, content_right as int, dpi as int);
            lemma_scales_between(0, 28, content_right as int, dpi as int);
            lemma_scales_between(0, 66, content_right as int, dpi as int);
            lemma_scales_between(0, 88, content_right as int, dpi as int);
            lemma_scales_between(0, 140, content_right as int, dpi as int);
            lemma_scales_between(0, 16, content_right as int, dpi as int);
            lemma_scales_between(0, sidebar_width - 14, content_right as int, dpi as int);
            lemma_scales_between(0, HEADER_HEIGHT as int, content_right as int, dpi as int);
        }
        SettingsLayout {
            sidebar: device_rect(0, 0, sidebar_width, logical_height, dpi),
            sidebar_nav: device_rect(14, 88, sidebar_width - 14, 140, dpi),
            settings_title: device_rect(28, 20, sidebar_width - 14, 66, dpi),
            page_title: device_rect(content_left, 16, content_right, 66, dpi),
            menu_section_title,
            tile_section_title,
            undo_button,
            save_button,
            rows,
            scrollbar,
            expanded_sidebar,
            viewport_top: scale(HEADER_HEIGHT, dpi),
            viewport_bottom: scale(logical_height - FOOTER_HEIGHT, dpi),
            scroll_max,
        }
    }

    /// The row of setting `id`, if the page has one.
    pub fn row(&self, id: SettingId) -> (r: Option<SettingItemLayout>)
        ensures
            match r {
                Some(row) => exists|p: int|
                    0 <= p < self.rows@.len() && self.rows@[p] == row && row.id == id && forall|q: int|
                        0 <= q < p ==> (#[trigger] self.rows@[q]).id != id,
                None => forall|q: int| 0 <= q < self.rows@.len() ==> (#[trigger] self.rows@[q]).id != id,
            },
    {
        let mut index: usize = 0;
        while index < self.rows.len()
            invariant
                0 <= index <= self.rows@.len(),
                forall|q: int| 0 <= q < index ==> (#[trigger] self.rows@[q]).id != id,
            decreases self.rows@.len() - index,
        {
            if self.rows[index].id == id {
                return Some(self.rows[index]);
            }
            index += 1;
        }
        None
    }

    /// The setting of the first row whose control contains `(x, y)`.
    pub fn hit_control(&self, x: i32, y: i32) -> (r: Option<SettingId>)
        ensures
            match r {
                Some(id) => exists|p: int|
                    0 <= p < self.rows@.len() && self.rows@[p].id == id && self.rows@[p].control.spec_contains(
                        x as int,
                        y as int,
                    ) && forall|q: int|
                        0 <= q < p ==> !(#[trigger] self.rows@[q]).control.spec_contains(x as int, y as int),
                None => forall|q: int|
                    0 <= q < self.rows@.len() ==> !(#[trigger] self.rows@[q]).control.spec_contains(x as int, y as int),
            },
    {
        let mut index: usize = 0;
        while index < self.rows.len()
            invariant
                0 <= index <= self.rows@.len(),
                forall|q: int| 0 <= q < index ==> !(#[trigger] self.rows@[q]).control.spec_contains(x as int, y as int),
            decreases self.rows@.len() - index,
        {
            if contains(self.rows[index].control, x, y) {
                return Some(self.rows[index].id);
            }
            index += 1;
        }
        None
    }

    /// Whether `(x, y)` is on the undo button.
    pub fn hit_undo(&self, x: i32, y: i32) -> (r: bool)
        ensures
            r == self.undo_button.spec_contains(x as int, y as int),
    {
        contains(self.undo_button, x, y)
    }

    /// Whether `(x, y)` is on the save button.
    pub fn hit_save(&self, x: i32, y: i32) -> (r: bool)
        ensures
            r == self.save_button.spec_contains(x as int, y as int),
    {
        contains(self.save_button, x, y)
    }

    /// Whether `(x, y)` is on the scrollbar thumb.
    pub fn hit_scroll_thumb(&self, x: i32, y: i32) -> (r: bool)
        ensures
            r == (self.scrollbar matches Some(bar) && bar.thumb.spec_contains(x as int, y as int)),
    {
        match self.scrollbar {
            Some(scrollbar) => contains(scrollbar.thumb, x, y),
            None => false,
        }
    }

    /// The scroll position for a thumb dragged so that its top edge is at
    /// `thumb_top`, in proportion to how far it is along the track.
    pub fn scroll_from_thumb(&self, thumb_top: i64) -> (r: i32)
        requires
            self.scroll_max >= 0,
        ensures
            r == spec_thumb_scroll(self.scrollbar, self.scroll_max as int, thumb_top as int),
            0 <= r <= self.scroll_max,
    {
        thumb_scroll(self.scrollbar, self.scroll_max, thumb_top)
    }

    /// Whether `(x, y)` is on the scrollbar track.
    pub fn hit_scroll_track(&self, x: i32, y: i32) -> (r: bool)
        ensures
            r == (self.scrollbar matches Some(bar) && bar.track.spec_contains(x as int, y as int)),
    {
        match self.scrollbar {
            Some(scrollbar) => contains(scrollbar.track, x, y),
            None => false,
        }
    }
}

} // verus!

//! The drop-down list that opens under a choice row: its options, where it
//! opens, which entry the pointer or the keyboard picks, and when it closes.

use super::item::SettingId;
use super::layout::{max_int, clamp_int};
use crate::geometry::{Rect, UiRect, fits_i32, scale, spec_scale};
use crate::localization::{TextResources, decimal, spec_decimal};
use super::window::{
    WM_CLOSE, WM_ERASEBKGND, WM_LBUTTONUP, WM_MOUSEMOVE, WM_NCDESTROY, WM_PAINT, point_from_lparam, spec_point,
};
use vstd::prelude::*;

verus! {

/// Logical gap between the anchor and the list.
pub const POPUP_GAP: i32 = 4;
/// Logical padding above the first and below the last entry.
pub const POPUP_PADDING: i32 = 4;
/// Logical height of an entry.
pub const ITEM_HEIGHT: i32 = 36;
/// Logical margin left and right of an entry.
pub const ITEM_HORIZONTAL_MARGIN: i32 = 4;
/// Logical narrowest width of the list.
pub const POPUP_MIN_WIDTH: i32 = 96;

/// Virtual-key codes the list answers to.
pub const KEY_RETURN: u16 = 0x0D;
pub const KEY_ESCAPE: u16 = 0x1B;
pub const KEY_UP: u16 = 0x26;
pub const KEY_DOWN: u16 = 0x28;

/// An entry of the list: the value it stands for and its label.
pub struct ChoiceOption {
    pub value: u8,
    pub label: String,
}

impl ChoiceOption {
    pub fn new(value: u8, label: String) -> (r: Self)
        ensures
            r.value == value,
            r.label == label,
    {
        Self { value, label }
    }

    /// An entry labelled with its value in decimal.
    pub fn number(value: u8) -> (r: Self)
        ensures
            r.value == value,
            r.label@ == spec_decimal(value as nat),
    {
        Self::new(value, decimal(value as u32))
    }
}

/// The values a choice row offers, in list order.
pub open spec fn spec_choice_values(field: SettingId) -> Option<Seq<u8>> {
    match field {
        SettingId::Shortcut => Some(seq![0u8, 1u8]),
        SettingId::BarColumns => Some(seq![1u8, 2u8, 3u8, 4u8, 5u8, 6u8]),
        SettingId::TilesPerRow => Some(seq![3u8, 4u8, 5u8]),
        _ => None,
    }
}

fn number_range(first: u8, last: u8) -> (r: Vec<ChoiceOption>)
    requires
        first <= last,
    ensures
        r@.len() == last - first + 1,
        forall|i: int| 0 <= i < r@.len() ==> (#[trigger] r@[i]).value == first + i && r@[i].label@ == spec_decimal((first + i) as nat),
{
    let mut options: Vec<ChoiceOption> = Vec::new();
    let mut value: u8 = first;
    loop
        invariant
            first <= value <= last,
            options@.len() == value - first,
            forall|i: int| 0 <= i < options@.len() ==> (#[trigger] options@[i]).value == first + i && options@[i].label@ == spec_decimal((first + i) as nat),
        decreases last - value,
    {
        options.push(ChoiceOption::number(value));
        if value == last {
            return options;
        }
        value = value + 1;
    }
}

/// The entries of the list of a choice row: the two shortcuts, the column
/// counts 1 to 6 or the tile counts 3 to 5; `None` for a row that is no choice.
pub fn choice_options(field: SettingId, text: &TextResources) -> (r: Option<Vec<ChoiceOption>>)
    ensures
        match (r, spec_choice_values(field)) {
            (Some(options), Some(values)) => {
                &&& options@.len() == values.len()
                &&& forall|i: int| 0 <= i < values.len() ==> (#[trigger] options@[i]).value == values[i]
                &&& (field != SettingId::Shortcut ==> forall|i: int|
                    0 <= i < values.len() ==> (#[trigger] options@[i]).label@ == spec_decimal(values[i] as nat))
                &&& (field == SettingId::Shortcut ==> options@[0].label@ == text.shortcut_win_shift@
                    && options@[1].label@ == text.shortcut_win@)
            },
            (None, None) => true,
            _ => false,
        },
{
    match field {
        SettingId::Shortcut => {
            let mut options: Vec<ChoiceOption> = Vec::new();
            options.push(ChoiceOption::new(0, text.shortcut_win_shift.clone()));
            options.push(ChoiceOption::new(1, text.shortcut_win.clone()));
            Some(options)
        },
        SettingId::BarColumns => Some(number_range(1, 6)),
        SettingId::TilesPerRow => Some(number_range(3, 5)),
        _ => None,
    }
}

/// The first index of an entry with value `value`.
pub open spec fn spec_position(options: Seq<ChoiceOption>, value: u8) -> Option<usize> {
    if exists|i: int| 0 <= i < options.len() && options[i].value == value {
        let i = choose|i: int|
            0 <= i < options.len() && options[i].value == value && forall|j: int| 0 <= j < i ==> options[j].value != value;
        Some(i as usize)
    } else {
        None
    }
}

proof fn lemma_first_position(options: Seq<ChoiceOption>, value: u8, i: int)
    requires
        0 <= i < options.len(),
        options[i].value == value,
        forall|j: int| 0 <= j < i ==> options[j].value != value,
    ensures
        spec_position(options, value) == Some(i as usize),
{
    let k = choose|k: int|
        0 <= k < options.len() && options[k].value == value && forall|j: int| 0 <= j < k ==> options[j].value != value;
    assert(k == i) by {
        if k < i {
            assert(options[k].value != value);
        } else if i < k {
            assert(options[i].value != value);
        }
    }
}

fn position(options: &Vec<ChoiceOption>, value: u8) -> (r: Option<usize>)
    ensures
        r == spec_position(options@, value),
        r matches Some(i) ==> i < options@.len(),
{
    let mut index: usize = 0;
    while index < options.len()
        invariant
            0 <= index <= options@.len(),
            forall|j: int| 0 <= j < index ==> options@[j].value != value,
        decreases options@.len() - index,
    {
        if options[index].value == value {
            proof {
                lemma_first_position(options@, value, index as int);
            }
            return Some(index);
        }
        index += 1;
    }
    None
}

/// Where the list opens: below the anchor where it fits on the work area, above
/// it otherwise, then moved onto the work area; as left, top, width and height.
pub open spec fn spec_popup_placement(anchor: Rect, option_count: int, work: Rect, dpi: int) -> (int, int, int, int) {
    let width = max_int(anchor.right - anchor.left, spec_scale(POPUP_MIN_WIDTH as int, dpi));
    let height = spec_scale(POPUP_PADDING * 2 + ITEM_HEIGHT * option_count, dpi);
    let gap = spec_scale(POPUP_GAP as int, dpi);
    let below = anchor.bottom + gap + height <= work.bottom;
    let top = if below { anchor.bottom + gap } else { anchor.top - gap - height };
    let left = clamp_int(anchor.left as int, work.left as int, max_int(work.right - width, work.left as int));
    let top = clamp_int(top, work.top as int, max_int(work.bottom - height, work.top as int));
    (left, top, width, height)
}

/// Every value the placement of a list of `option_count` entries computes is an
/// `i32`.
pub open spec fn popup_placement_fits(anchor: Rect, option_count: int, work: Rect, dpi: int) -> bool {
    let logical_height = POPUP_PADDING * 2 + ITEM_HEIGHT * option_count;
    let width = max_int(anchor.right - anchor.left, spec_scale(POPUP_MIN_WIDTH as int, dpi));
    let height = spec_scale(logical_height, dpi);
    let gap = spec_scale(POPUP_GAP as int, dpi);
    let below = anchor.bottom + gap + height <= work.bottom;
    &&& 0 <= option_count <= i32::MAX
    &&& fits_i32(ITEM_HEIGHT * option_count)
    &&& fits_i32(logical_height)
    &&& fits_i32(POPUP_MIN_WIDTH * dpi)
    &&& fits_i32(logical_height * dpi)
    &&& fits_i32(POPUP_GAP * dpi)
    &&& fits_i32(anchor.right - anchor.left)
    &&& fits_i32(anchor.bottom + gap)
    &&& fits_i32(anchor.bottom + gap + height)
    &&& !below ==> fits_i32(anchor.top - gap)
    &&& !below ==> fits_i32(anchor.top - gap - height)
    &&& fits_i32(work.right - width)
    &&& fits_i32(work.bottom - height)
}

/// The screen position and size of a list of `option_count` entries opened at
/// `anchor` on the monitor work area `work`: left, top, width and height.
pub fn popup_placement(anchor: Rect, option_count: usize, work: Rect, dpi: i32) -> (r: (i32, i32, i32, i32))
    requires
        popup_placement_fits(anchor, option_count as int, work, dpi as int),
    ensures
        (r.0 as int, r.1 as int, r.2 as int, r.3 as int) == spec_popup_placement(anchor, option_count as int, work, dpi as int),
{
    let minimum_width = scale(POPUP_MIN_WIDTH, dpi);
    let width = if anchor.right - anchor.left >= minimum_width { anchor.right - anchor.left } else { minimum_width };
    let logical_height = POPUP_PADDING * 2 + ITEM_HEIGHT * option_count as i32;
    let height = scale(logical_height, dpi);
    let gap = scale(POPUP_GAP, dpi);
    let top = if anchor.bottom + gap + height <= work.bottom { anchor.bottom + gap } else { anchor.top - gap - height };
    let high_left = if work.right - width >= work.left { work.right - width } else { work.left };
    let left = if anchor.left < work.left { work.left } else if anchor.left > high_left { high_left } else { anchor.left };
    let high_top = if work.bottom - height >= work.top { work.bottom - height } else { work.top };
    let top = if top < work.top { work.top } else if top > high_top { high_top } else { top };
    (left, top, width, height)
}

/// Whether every value the placement of a list of `option_count` entries
/// computes is an `i32`.
pub fn popup_placement_fits_in(anchor: Rect, option_count: usize, work: Rect, dpi: i32) -> (r: bool)
    ensures
        r == popup_placement_fits(anchor, option_count as int, work, dpi as int),
{
    if option_count > i32::MAX as usize {
        return false;
    }
    let low = i32::MIN as i64;
    let high = i32::MAX as i64;
    let logical_height: i64 = POPUP_PADDING as i64 * 2 + ITEM_HEIGHT as i64 * option_count as i64;
    proof {
        assert(-96 * 2147483648 <= 96 * dpi <= 96 * 2147483648) by (nonlinear_arith)
            requires
                -2147483648 <= dpi <= 2147483647,
        ;
        assert(-4 * 2147483648 <= 4 * dpi <= 4 * 2147483648) by (nonlinear_arith)
            requires
                -2147483648 <= dpi <= 2147483647,
        ;
    }
    if ITEM_HEIGHT as i64 * (option_count as i64) > high || logical_height > high || (POPUP_MIN_WIDTH as i64 * dpi as i64)
        < low || (POPUP_MIN_WIDTH as i64 * dpi as i64) > high || (POPUP_GAP as i64 * dpi as i64) < low || (POPUP_GAP as i64
        * dpi as i64) > high {
        return false;
    }
    proof {
        assert(-2147483648 * 2147483648 <= logical_height * dpi <= 2147483648 * 2147483648) by (nonlinear_arith)
            requires
                0 <= logical_height <= 2147483647,
                -2147483648 <= dpi <= 2147483647,
        ;
    }
    let product = logical_height * dpi as i64;
    if product < low || product > high {
        return false;
    }
    let span: i64 = anchor.right as i64 - anchor.left as i64;
    if span < low || span > high {
        return false;
    }
    let minimum_width = scale(POPUP_MIN_WIDTH, dpi) as i64;
    let width: i64 = if span >= minimum_width { span } else { minimum_width };
    let height = scale(logical_height as i32, dpi) as i64;
    let gap = scale(POPUP_GAP, dpi) as i64;
    let below_edge = anchor.bottom as i64 + gap;
    let lowest = below_edge + height;
    if below_edge < low || below_edge > high || lowest < low || lowest > high {
        return false;
    }
    if lowest > work.bottom as i64 {
        let above_edge = anchor.top as i64 - gap;
        if above_edge < low || above_edge > high || above_edge - height < low || above_edge - height > high {
            return false;
        }
    }
    let right_room = work.right as i64 - width;
    let bottom_room = work.bottom as i64 - height;
    low <= right_room && right_room <= high && low <= bottom_room && bottom_room <= high
}

/// What the list does with a message of its window.
#[derive(Clone, Copy, Debug, PartialEq, Eq, Structural)]
pub enum PopupReply {
    /// Nothing changed.
    Nothing,
    /// The highlighted entry changed: repaint.
    Repaint,
    /// The list closed now: release the pointer and hide the window.
    Closed,
}

/// The state of an open list.
pub struct ChoicePopupState {
    pub options: Vec<ChoiceOption>,
    pub selected: u8,
    pub hovered: Option<usize>,
    pub result: Option<u8>,
    pub closed: bool,
    pub dpi: i32,
}

/// The device rectangle of entry `index` in a list whose client area is `client`.
pub open spec fn spec_item_area(client: Rect, index: int, dpi: int) -> UiRect {
    let margin = spec_scale(ITEM_HORIZONTAL_MARGIN as int, dpi);
    let top = spec_scale(POPUP_PADDING + ITEM_HEIGHT * index, dpi);
    UiRect {
        left: (client.left + margin) as i32,
        top: top as i32,
        right: (client.right - margin) as i32,
        bottom: (top + spec_scale(ITEM_HEIGHT as int, dpi)) as i32,
    }
}

/// Every value the rectangle of entry `index` computes is an `i32`.
pub open spec fn item_area_fits(client: Rect, index: int, dpi: int) -> bool {
    let logical_top = POPUP_PADDING + ITEM_HEIGHT * index;
    let margin = spec_scale(ITEM_HORIZONTAL_MARGIN as int, dpi);
    &&& 0 <= index <= i32::MAX
    &&& fits_i32(ITEM_HEIGHT * index)
    &&& fits_i32(logical_top)
    &&& fits_i32(ITEM_HORIZONTAL_MARGIN * dpi)
    &&& fits_i32(logical_top * dpi)
    &&& fits_i32(ITEM_HEIGHT * dpi)
    &&& fits_i32(client.left + margin)
    &&& fits_i32(client.right - margin)
    &&& fits_i32(spec_scale(logical_top, dpi) + spec_scale(ITEM_HEIGHT as int, dpi))
}

/// The entries above one whose rectangle computes within `i32` compute within
/// `i32` too.
proof fn lemma_item_area_fits_above(client: Rect, j: int, k: int, dpi: int)
    requires
        0 <= j <= k,
        0 < dpi,
        item_area_fits(client, k, dpi),
    ensures
        item_area_fits(client, j, dpi),
{
    let low = POPUP_PADDING + ITEM_HEIGHT * j;
    let high = POPUP_PADDING + ITEM_HEIGHT * k;
    assert(0 < low * dpi <= high * dpi) by (nonlinear_arith)
        requires
            0 < low <= high,
            0 < dpi,
    ;
    assert(0 <= (low * dpi) / 96 <= (high * dpi) / 96) by (nonlinear_arith)
        requires
            0 < low * dpi <= high * dpi,
    ;
    assert(0 <= 36 * dpi);
    assert(0 <= (36 * dpi) / 96) by (nonlinear_arith)
        requires
            0 <= 36 * dpi,
    ;
}

impl ChoicePopupState {
    /// Every entry rectangle of the list in the client area `client` computes
    /// within `i32`: the one of the last entry does, and those above it follow.
    pub open spec fn areas_fit(&self, client: Rect) -> bool {
        item_area_fits(client, self.options@.len() - 1, self.dpi as int)
    }

    /// Whether every entry rectangle of the list computes within `i32` in the
    /// client area `client`.
    pub fn areas_fit_in(&self, client: Rect) -> (r: bool)
        requires
            self.wf(),
        ensures
            r == self.areas_fit(client),
    {
        let last = self.options.len() - 1;
        if last > i32::MAX as usize {
            return false;
        }
        let low = i32::MIN as i64;
        let high = i32::MAX as i64;
        proof {
            assert(0 <= 36 * last <= 36 * 2147483647) by (nonlinear_arith)
                requires
                    0 <= last <= 2147483647,
            ;
        }
        let logical_top: i64 = POPUP_PADDING as i64 + ITEM_HEIGHT as i64 * last as i64;
        if ITEM_HEIGHT as i64 * last as i64 > high || logical_top > high {
            return false;
        }
        proof {
            assert(0 < 36 * self.dpi <= 36 * 2147483647) by (nonlinear_arith)
                requires
                    0 < self.dpi <= 2147483647,
            ;
            assert(0 < logical_top * self.dpi <= 2147483647 * 2147483647) by (nonlinear_arith)
                requires
                    0 < logical_top <= 2147483647,
                    0 < self.dpi <= 2147483647,
            ;
        }
        let dpi = self.dpi as i64;
        if ITEM_HORIZONTAL_MARGIN as i64 * dpi > high || logical_top * dpi > high || ITEM_HEIGHT as i64 * dpi > high {
            return false;
        }
        let margin = scale(ITEM_HORIZONTAL_MARGIN, self.dpi) as i64;
        let top = scale(logical_top as i32, self.dpi) as i64;
        let bottom = top + scale(ITEM_HEIGHT, self.dpi) as i64;
        let left = client.left as i64 + margin;
        let right = client.right as i64 - margin;
        low <= left && left <= high && low <= right && right <= high && bottom <= high
    }

    /// The list is well formed: at least one entry, a positive dpi and a
    /// highlighted entry that exists.
    pub open spec fn wf(&self) -> bool {
        &&& 0 < self.options@.len()
        &&& 0 < self.dpi
        &&& (self.hovered matches Some(i) ==> i < self.options@.len())
    }

    /// A list of `options` with `selected` as the current value, highlighting the
    /// entry of the current value.
    pub fn new(options: Vec<ChoiceOption>, selected: u8, dpi: i32) -> (r: Self)
        requires
            0 < options@.len(),
            0 < dpi,
        ensures
            r.wf(),
            r.options@ == options@,
            r.selected == selected,
            r.hovered == spec_position(options@, selected),
            r.result is None,
            !r.closed,
            r.dpi == dpi,
    {
        let hovered = position(&options, selected);
        Self { options, selected, hovered, result: None, closed: false, dpi }
    }

    /// The rectangle of entry `index` in the client area `client`.
    pub fn item_area(&self, client: Rect, index: usize) -> (r: UiRect)
        requires
            self.wf(),
            index < self.options@.len(),
            item_area_fits(client, index as int, self.dpi as int),
        ensures
            r == spec_item_area(client, index as int, self.dpi as int),
    {
        let logical_top = POPUP_PADDING + ITEM_HEIGHT * index as i32;
        let margin = scale(ITEM_HORIZONTAL_MARGIN, self.dpi);
        let top = scale(logical_top, self.dpi);
        UiRect::new(client.left + margin, top, client.right - margin, top + scale(ITEM_HEIGHT, self.dpi))
    }

    /// The first entry whose rectangle contains `(x, y)`.
    pub fn item_at(&self, client: Rect, x: i32, y: i32) -> (r: Option<usize>)
        requires
            self.wf(),
            self.areas_fit(client),
        ensures
            match r {
                Some(i) => i < self.options@.len() && spec_item_area(client, i as int, self.dpi as int).spec_contains(x as int, y as int)
                    && forall|j: int| 0 <= j < i ==> !(#[trigger] spec_item_area(client, j, self.dpi as int)).spec_contains(x as int, y as int),
                None => forall|j: int| 0 <= j < self.options@.len() ==> !(#[trigger] spec_item_area(client, j, self.dpi as int)).spec_contains(x as int, y as int),
            },
    {
        let mut index: usize = 0;
        while index < self.options.len()
            invariant
                self.wf(),
                self.areas_fit(client),
                0 <= index <= self.options@.len(),
                forall|j: int| 0 <= j < index ==> !(#[trigger] spec_item_area(client, j, self.dpi as int)).spec_contains(x as int, y as int),
            decreases self.options@.len() - index,
        {
            proof {
                lemma_item_area_fits_above(client, index as int, self.options@.len() - 1, self.dpi as int);
            }
            if self.item_area(client, index).contains(x, y) {
                return Some(index);
            }
            index += 1;
        }
        None
    }

    /// Closes the list with `result`, once; later calls change nothing.
    pub fn close(&mut self, result: Option<u8>) -> (r: PopupReply)
        ensures
            final(self).closed,
            final(self).options@ == old(self).options@,
            final(self).selected == old(self).selected,
            final(self).hovered == old(self).hovered,
            final(self).dpi == old(self).dpi,
            old(self).closed ==> final(self).result == old(self).result && r == PopupReply::Nothing,
            !old(self).closed ==> final(self).result == result && r == PopupReply::Closed,
    {
        if self.closed {
            return PopupReply::Nothing;
        }
        self.result = result;
        self.closed = true;
        PopupReply::Closed
    }

    /// The entry the keyboard moves from: the highlighted one, else that of the
    /// current value, else the first.
    pub open spec fn spec_current(&self) -> int {
        match self.hovered {
            Some(i) => i as int,
            None => match spec_position(self.options@, self.selected) {
                Some(i) => i as int,
                None => 0,
            },
        }
    }

    /// The entry `offset` entries away from the current one, held to the list.
    pub open spec fn spec_moved(&self, offset: int) -> int {
        clamp_int(self.spec_current() + offset, 0, max_int(self.options@.len() - 1, 0))
    }

    /// Keyboard moves keep the highlight on an entry of the list.
    pub proof fn lemma_move_stays_in_list(&self, offset: int)
        requires
            self.wf(),
        ensures
            0 <= self.spec_moved(offset) < self.options@.len(),
    {
    }

    /// Moves the highlight `offset` entries, stopping at the ends of the list.
    pub fn move_selection(&mut self, offset: isize) -> (r: PopupReply)
        requires
            old(self).wf(),
        ensures
            final(self).wf(),
            final(self).hovered == Some(old(self).spec_moved(offset as int) as usize),
            final(self).options@ == old(self).options@,
            final(self).selected == old(self).selected,
            final(self).result == old(self).result,
            final(self).closed == old(self).closed,
            final(self).dpi == old(self).dpi,
            r == (if old(self).hovered == Some(old(self).spec_moved(offset as int) as usize) {
                PopupReply::Nothing
            } else {
                PopupReply::Repaint
            }),
    {
        let current: usize = match self.hovered {
            Some(index) => index,
            None => match position(&self.options, self.selected) {
                Some(index) => index,
                None => 0,
            },
        };
        let last: i128 = if self.options.len() == 0 { 0 } else { (self.options.len() - 1) as i128 };
        let wanted: i128 = current as i128 + offset as i128;
        let next: i128 = if wanted < 0 { 0 } else if wanted > last { last } else { wanted };
        let next = next as usize;
        let unchanged = match self.hovered {
            Some(index) => index == next,
            None => false,
        };
        if unchanged {
            return PopupReply::Nothing;
        }
        self.hovered = Some(next);
        PopupReply::Repaint
    }

    /// The pointer moved to `(x, y)`: highlight the entry under it, if any.
    pub fn on_pointer_move(&mut self, client: Rect, x: i32, y: i32) -> (r: PopupReply)
        requires
            old(self).wf(),
            old(self).areas_fit(client),
        ensures
            final(self).wf(),
            old(self).item_at_spec(client, x as int, y as int, final(self).hovered),
            final(self).options@ == old(self).options@,
            final(self).selected == old(self).selected,
            final(self).result == old(self).result,
            final(self).closed == old(self).closed,
            final(self).dpi == old(self).dpi,
            r == (if final(self).hovered == old(self).hovered { PopupReply::Nothing } else { PopupReply::Repaint }),
    {
        let hovered = self.item_at(client, x, y);
        let same = match (hovered, self.hovered) {
            (Some(a), Some(b)) => a == b,
            (None, None) => true,
            _ => false,
        };
        if same {
            return PopupReply::Nothing;
        }
        self.hovered = hovered;
        PopupReply::Repaint
    }

    /// `hovered` is the first entry under `(x, y)`, or `None` where there is none.
    pub open spec fn item_at_spec(&self, client: Rect, x: int, y: int, hovered: Option<usize>) -> bool {
        match hovered {
            Some(i) => i < self.options@.len() && spec_item_area(client, i as int, self.dpi as int).spec_contains(x, y)
                && forall|j: int| 0 <= j < i ==> !(#[trigger] spec_item_area(client, j, self.dpi as int)).spec_contains(x, y),
            None => forall|j: int| 0 <= j < self.options@.len() ==> !(#[trigger] spec_item_area(client, j, self.dpi as int)).spec_contains(x, y),
        }
    }

    /// The button was released at `(x, y)`: close with the value of the entry
    /// there, or with no value where there is none.
    pub fn on_pointer_up(&mut self, client: Rect, x: i32, y: i32) -> (r: PopupReply)
        requires
            old(self).wf(),
            old(self).areas_fit(client),
        ensures
            final(self).closed,
            final(self).options@ == old(self).options@,
            final(self).hovered == old(self).hovered,
            !old(self).closed ==> r == PopupReply::Closed && exists|hit: Option<usize>|
                old(self).item_at_spec(client, x as int, y as int, hit) && final(self).result == (match hit {
                    Some(i) => Some(old(self).options@[i as int].value),
                    None => None,
                }),
            old(self).closed ==> r == PopupReply::Nothing && final(self).result == old(self).result,
    {
        let hit = self.item_at(client, x, y);
        let result = match hit {
            Some(index) => Some(self.options[index].value),
            None => None,
        };
        proof {
            assert(self.item_at_spec(client, x as int, y as int, hit));
        }
        self.close(result)
    }

    /// A key went down: Escape closes without a value, Up and Down move the
    /// highlight, Return closes with the value of the highlighted entry.
    pub fn on_key_down(&mut self, key: u16) -> (r: PopupReply)
        requires
            old(self).wf(),
        ensures
            final(self).wf(),
            final(self).options@ == old(self).options@,
            final(self).selected == old(self).selected,
            final(self).dpi == old(self).dpi,
            key == KEY_ESCAPE ==> final(self).closed && final(self).hovered == old(self).hovered && (!old(self).closed
                ==> final(self).result is None && r == PopupReply::Closed) && (old(self).closed ==> final(self).result
                == old(self).result && r == PopupReply::Nothing),
            key == KEY_UP ==> final(self).hovered == Some(old(self).spec_moved(-1) as usize) && final(self).closed
                == old(self).closed && final(self).result == old(self).result,
            key == KEY_DOWN ==> final(self).hovered == Some(old(self).spec_moved(1) as usize) && final(self).closed
                == old(self).closed && final(self).result == old(self).result,
            (key == KEY_UP || key == KEY_DOWN) ==> r == (if old(self).hovered == final(self).hovered {
                PopupReply::Nothing
            } else {
                PopupReply::Repaint
            }),
            key == KEY_RETURN ==> final(self).closed && final(self).hovered == old(self).hovered && (!old(self).closed
                ==> r == PopupReply::Closed && final(self).result == (match old(self).hovered {
                Some(i) => Some(old(self).options@[i as int].value),
                None => None,
            })) && (old(self).closed ==> final(self).result == old(self).result && r == PopupReply::Nothing),
            key != KEY_ESCAPE && key != KEY_UP && key != KEY_DOWN && key != KEY_RETURN ==> *final(self) == *old(self)
                && r == PopupReply::Nothing,
    {
        if key == KEY_ESCAPE {
            self.close(None)
        } else if key == KEY_UP {
            self.move_selection(-1)
        } else if key == KEY_DOWN {
            self.move_selection(1)
        } else if key == KEY_RETURN {
            let result = match self.hovered {
                Some(index) => Some(self.options[index].value),
                None => None,
            };
            self.close(result)
        } else {
            PopupReply::Nothing
        }
    }
}

/// Window message numbers only the list answers.
pub const WM_KILLFOCUS: u32 = 0x0008;
pub const WM_KEYDOWN: u32 = 0x0100;

/// What a message to the list window is.
#[derive(Clone, Copy, Debug, PartialEq, Eq, Structural)]
pub enum PopupMessage {
    Paint,
    PointerMove(i32, i32),
    PointerUp(i32, i32),
    KeyDown(u16),
    /// The list lost the focus or was asked to close.
    Dismiss,
    EraseBackground,
    NcDestroy,
    Other,
}

pub open spec fn spec_classify_popup(message: u32, wparam: usize, lparam: isize) -> PopupMessage {
    let (x, y) = spec_point(lparam);
    if message == WM_PAINT {
        PopupMessage::Paint
    } else if message == WM_MOUSEMOVE {
        PopupMessage::PointerMove(x, y)
    } else if message == WM_LBUTTONUP {
        PopupMessage::PointerUp(x, y)
    } else if message == WM_KEYDOWN {
        PopupMessage::KeyDown(wparam as u16)
    } else if message == WM_KILLFOCUS || message == WM_CLOSE {
        PopupMessage::Dismiss
    } else if message == WM_ERASEBKGND {
        PopupMessage::EraseBackground
    } else if message == WM_NCDESTROY {
        PopupMessage::NcDestroy
    } else {
        PopupMessage::Other
    }
}

/// What the message `message` with parameters `wparam` and `lparam` is.
pub fn classify_popup_message(message: u32, wparam: usize, lparam: isize) -> (r: PopupMessage)
    ensures
        r == spec_classify_popup(message, wparam, lparam),
{
    let (x, y) = point_from_lparam(lparam);
    if message == WM_PAINT {
        PopupMessage::Paint
    } else if message == WM_MOUSEMOVE {
        PopupMessage::PointerMove(x, y)
    } else if message == WM_LBUTTONUP {
        PopupMessage::PointerUp(x, y)
    } else if message == WM_KEYDOWN {
        PopupMessage::KeyDown(wparam as u16)
    } else if message == WM_KILLFOCUS || message == WM_CLOSE {
        PopupMessage::Dismiss
    } else if message == WM_ERASEBKGND {
        PopupMessage::EraseBackground
    } else if message == WM_NCDESTROY {
        PopupMessage::NcDestroy
    } else {
        PopupMessage::Other
    }
}

} // verus!

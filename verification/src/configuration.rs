//! User preferences of the Start menu and the store that locates them.

use crate::injector::text_equals;
use vstd::prelude::*;

verus! {

/// The keyboard shortcut that opens the Start menu.
#[derive(Clone, Copy, Debug, PartialEq, Eq, Structural)]
pub enum StartShortcut {
    WinShift,
    Win,
}

impl Default for StartShortcut {
    fn default() -> (r: Self)
        ensures
            r == StartShortcut::WinShift,
    {
        StartShortcut::WinShift
    }
}

impl StartShortcut {
    pub open spec fn spec_name(self) -> Seq<char> {
        match self {
            StartShortcut::WinShift => "win-shift"@,
            StartShortcut::Win => "win"@,
        }
    }

    /// The stable name under which the shortcut is stored in the settings file.
    pub fn name(&self) -> (r: &'static str)
        ensures
            r@ == self.spec_name(),
    {
        match self {
            StartShortcut::WinShift => "win-shift",
            StartShortcut::Win => "win",
        }
    }

    /// The shortcut stored under `name`, if any.
    pub open spec fn spec_from_name(name: Seq<char>) -> Option<StartShortcut> {
        if name == "win-shift"@ {
            Some(StartShortcut::WinShift)
        } else if name == "win"@ {
            Some(StartShortcut::Win)
        } else {
            None
        }
    }

    /// Reads back a name written by [`StartShortcut::name`]; `None` for any
    /// other text.
    pub fn from_name(name: &str) -> (r: Option<StartShortcut>)
        ensures
            r == StartShortcut::spec_from_name(name@),
    {
        if text_equals(name, "win-shift") {
            Some(StartShortcut::WinShift)
        } else if text_equals(name, "win") {
            Some(StartShortcut::Win)
        } else {
            None
        }
    }
}

/// Reading back the stored name of a shortcut gives the shortcut.
pub proof fn lemma_shortcut_name_round_trip(shortcut: StartShortcut)
    ensures
        StartShortcut::spec_from_name(shortcut.spec_name()) == Some(shortcut),
{
    reveal_strlit("win-shift");
    reveal_strlit("win");
    assert("win-shift"@.len() != "win"@.len());
}

/// Preferences of the Start menu surface.
#[derive(Clone, Copy, Debug, PartialEq, Eq, Structural)]
pub struct StartPreferences {
    pub overlay_opacity_percent: u8,
    pub blur_percent: u8,
    pub opening_duration_ms: u32,
    pub shortcut: StartShortcut,
    pub open_on_start_button_click: bool,
    pub rounded_tiles: bool,
    pub rounded_tile_bars: bool,
    pub tile_animation_duration_ms: u32,
    pub tile_background_opacity_percent: u8,
    pub tile_bar_background_opacity_percent: u8,
    pub tile_bar_columns: u8,
    pub tiles_per_row: u8,
}

/// All preferences of the application.
#[derive(Clone, Copy, Debug, PartialEq, Eq, Structural)]
pub struct AppPreferences {
    pub start: StartPreferences,
}

/// The fields of a stored preferences record; those that the file may leave out
/// are optional.
#[derive(Clone, Copy, Debug, PartialEq, Eq)]
pub struct StoredStartPreferences {
    pub overlay_opacity_percent: u8,
    pub blur_percent: u8,
    pub opening_duration_ms: u32,
    pub shortcut: Option<StartShortcut>,
    pub open_on_start_button_click: Option<bool>,
    pub rounded_tiles: Option<bool>,
    pub rounded_tile_bars: Option<bool>,
    pub tile_animation_duration_ms: Option<u32>,
    pub tile_background_opacity_percent: Option<u8>,
    pub tile_bar_background_opacity_percent: Option<u8>,
    pub tile_bar_columns: Option<u8>,
    pub tiles_per_row: Option<u8>,
}

pub open spec fn min_int(a: int, b: int) -> int {
    if a <= b {
        a
    } else {
        b
    }
}

pub open spec fn clamp_int(value: int, low: int, high: int) -> int {
    if value < low {
        low
    } else if value > high {
        high
    } else {
        value
    }
}

pub open spec fn or_default<T>(value: Option<T>, default: T) -> T {
    match value {
        Some(v) => v,
        None => default,
    }
}

impl StartPreferences {
    /// The preferences with every value brought into its allowed range.
    pub open spec fn spec_normalized(self) -> StartPreferences {
        StartPreferences {
            overlay_opacity_percent: min_int(self.overlay_opacity_percent as int, 100) as u8,
            blur_percent: min_int(self.blur_percent as int, 100) as u8,
            opening_duration_ms: (min_int(self.opening_duration_ms as int, 5000) / 50 * 50) as u32,
            tile_animation_duration_ms: (min_int(self.tile_animation_duration_ms as int, 1000) / 10
                * 10) as u32,
            tile_background_opacity_percent: min_int(
                self.tile_background_opacity_percent as int,
                100,
            ) as u8,
            tile_bar_background_opacity_percent: min_int(
                self.tile_bar_background_opacity_percent as int,
                100,
            ) as u8,
            tile_bar_columns: clamp_int(self.tile_bar_columns as int, 1, 6) as u8,
            tiles_per_row: clamp_int(self.tiles_per_row as int, 3, 5) as u8,
            ..self
        }
    }

    /// Every value lies in its allowed range and on its step.
    pub open spec fn is_normalized(self) -> bool {
        &&& self.overlay_opacity_percent <= 100
        &&& self.blur_percent <= 100
        &&& self.opening_duration_ms <= 5000
        &&& self.opening_duration_ms % 50 == 0
        &&& self.tile_animation_duration_ms <= 1000
        &&& self.tile_animation_duration_ms % 10 == 0
        &&& self.tile_background_opacity_percent <= 100
        &&& self.tile_bar_background_opacity_percent <= 100
        &&& 1 <= self.tile_bar_columns <= 6
        &&& 3 <= self.tiles_per_row <= 5
    }

    /// The preferences a stored record stands for: absent fields take their defaults.
    pub open spec fn spec_from_stored(stored: StoredStartPreferences) -> StartPreferences {
        StartPreferences {
            overlay_opacity_percent: stored.overlay_opacity_percent,
            blur_percent: stored.blur_percent,
            opening_duration_ms: stored.opening_duration_ms,
            shortcut: or_default(stored.shortcut, StartShortcut::WinShift),
            open_on_start_button_click: or_default(stored.open_on_start_button_click, true),
            rounded_tiles: or_default(stored.rounded_tiles, true),
            rounded_tile_bars: or_default(stored.rounded_tile_bars, true),
            tile_animation_duration_ms: or_default(stored.tile_animation_duration_ms, 220u32),
            tile_background_opacity_percent: or_default(stored.tile_background_opacity_percent, 64u8),
            tile_bar_background_opacity_percent: or_default(
                stored.tile_bar_background_opacity_percent,
                64u8,
            ),
            tile_bar_columns: or_default(stored.tile_bar_columns, 3u8),
            tiles_per_row: or_default(stored.tiles_per_row, 4u8),
        }
    }

    /// Brings every value into its allowed range: percentages to at most 100, the
    /// opening duration to at most 5000 ms in steps of 50, the tile animation to at
    /// most 1000 ms in steps of 10, bar columns to 1..=6 and tiles per row to 3..=5.
    pub fn normalize(&mut self)
        ensures
            *final(self) == old(self).spec_normalized(),
    {
        self.overlay_opacity_percent = if self.overlay_opacity_percent < 100 {
            self.overlay_opacity_percent
        } else {
            100
        };
        self.blur_percent = if self.blur_percent < 100 {
            self.blur_percent
        } else {
            100
        };
        let opening = if self.opening_duration_ms < 5000 {
            self.opening_duration_ms
        } else {
            5000
        };
        self.opening_duration_ms = opening / 50 * 50;
        let tile_animation = if self.tile_animation_duration_ms < 1000 {
            self.tile_animation_duration_ms
        } else {
            1000
        };
        self.tile_animation_duration_ms = tile_animation / 10 * 10;
        self.tile_background_opacity_percent = if self.tile_background_opacity_percent < 100 {
            self.tile_background_opacity_percent
        } else {
            100
        };
        self.tile_bar_background_opacity_percent = if self.tile_bar_background_opacity_percent
            < 100 {
            self.tile_bar_background_opacity_percent
        } else {
            100
        };
        self.tile_bar_columns = if self.tile_bar_columns < 1 {
            1
        } else if self.tile_bar_columns > 6 {
            6
        } else {
            self.tile_bar_columns
        };
        self.tiles_per_row = if self.tiles_per_row < 3 {
            3
        } else if self.tiles_per_row > 5 {
            5
        } else {
            self.tiles_per_row
        };
    }

    /// The preferences a stored record stands for, with the defaults of the fields
    /// that the record leaves out.
    pub fn from_stored(stored: StoredStartPreferences) -> (r: StartPreferences)
        ensures
            r == StartPreferences::spec_from_stored(stored),
    {
        StartPreferences {
            overlay_opacity_percent: stored.overlay_opacity_percent,
            blur_percent: stored.blur_percent,
            opening_duration_ms: stored.opening_duration_ms,
            shortcut: match stored.shortcut {
                Some(shortcut) => shortcut,
                None => StartShortcut::default(),
            },
            open_on_start_button_click: match stored.open_on_start_button_click {
                Some(value) => value,
                None => default_open_on_start_button_click(),
            },
            rounded_tiles: match stored.rounded_tiles {
                Some(value) => value,
                None => default_rounded_tiles(),
            },
            rounded_tile_bars: match stored.rounded_tile_bars {
                Some(value) => value,
                None => default_rounded_tile_bars(),
            },
            tile_animation_duration_ms: match stored.tile_animation_duration_ms {
                Some(value) => value,
                None => default_tile_animation_duration_ms(),
            },
            tile_background_opacity_percent: match stored.tile_background_opacity_percent {
                Some(value) => value,
                None => default_tile_background_opacity_percent(),
            },
            tile_bar_background_opacity_percent: match stored.tile_bar_background_opacity_percent {
                Some(value) => value,
                None => default_tile_bar_background_opacity_percent(),
            },
            tile_bar_columns: match stored.tile_bar_columns {
                Some(value) => value,
                None => default_bar_columns(),
            },
            tiles_per_row: match stored.tiles_per_row {
                Some(value) => value,
                None => default_tiles_per_row(),
            },
        }
    }

    /// The record these preferences are stored as: every field present.
    pub open spec fn spec_to_stored(self) -> StoredStartPreferences {
        StoredStartPreferences {
            overlay_opacity_percent: self.overlay_opacity_percent,
            blur_percent: self.blur_percent,
            opening_duration_ms: self.opening_duration_ms,
            shortcut: Some(self.shortcut),
            open_on_start_button_click: Some(self.open_on_start_button_click),
            rounded_tiles: Some(self.rounded_tiles),
            rounded_tile_bars: Some(self.rounded_tile_bars),
            tile_animation_duration_ms: Some(self.tile_animation_duration_ms),
            tile_background_opacity_percent: Some(self.tile_background_opacity_percent),
            tile_bar_background_opacity_percent: Some(self.tile_bar_background_opacity_percent),
            tile_bar_columns: Some(self.tile_bar_columns),
            tiles_per_row: Some(self.tiles_per_row),
        }
    }

    /// The record to write to the settings file for these preferences.
    pub fn to_stored(&self) -> (r: StoredStartPreferences)
        ensures
            r == self.spec_to_stored(),
    {
        StoredStartPreferences {
            overlay_opacity_percent: self.overlay_opacity_percent,
            blur_percent: self.blur_percent,
            opening_duration_ms: self.opening_duration_ms,
            shortcut: Some(self.shortcut),
            open_on_start_button_click: Some(self.open_on_start_button_click),
            rounded_tiles: Some(self.rounded_tiles),
            rounded_tile_bars: Some(self.rounded_tile_bars),
            tile_animation_duration_ms: Some(self.tile_animation_duration_ms),
            tile_background_opacity_percent: Some(self.tile_background_opacity_percent),
            tile_bar_background_opacity_percent: Some(self.tile_bar_background_opacity_percent),
            tile_bar_columns: Some(self.tile_bar_columns),
            tiles_per_row: Some(self.tiles_per_row),
        }
    }
}

/// A record's field is taken as stored where it is present, and where the
/// record leaves it out it takes its documented default: the Win+Shift
/// shortcut, the Start button click and both kinds of rounded corners on, a
/// 220 ms tile animation, 64 % tile and tile bar backgrounds, 3 bar columns
/// and 4 tiles per row. The three fields every record holds are taken as
/// they are.
pub proof fn lemma_missing_fields_take_defaults(stored: StoredStartPreferences)
    ensures
        ({
            let read = StartPreferences::spec_from_stored(stored);
            &&& read.overlay_opacity_percent == stored.overlay_opacity_percent
            &&& read.blur_percent == stored.blur_percent
            &&& read.opening_duration_ms == stored.opening_duration_ms
            &&& read.shortcut == (match stored.shortcut {
                Some(v) => v,
                None => StartShortcut::WinShift,
            })
            &&& read.open_on_start_button_click == (match stored.open_on_start_button_click {
                Some(v) => v,
                None => true,
            })
            &&& read.rounded_tiles == (match stored.rounded_tiles {
                Some(v) => v,
                None => true,
            })
            &&& read.rounded_tile_bars == (match stored.rounded_tile_bars {
                Some(v) => v,
                None => true,
            })
            &&& read.tile_animation_duration_ms == (match stored.tile_animation_duration_ms {
                Some(v) => v,
                None => 220u32,
            })
            &&& read.tile_background_opacity_percent == (match stored.tile_background_opacity_percent {
                Some(v) => v,
                None => 64u8,
            })
            &&& read.tile_bar_background_opacity_percent == (match stored.tile_bar_background_opacity_percent {
                Some(v) => v,
                None => 64u8,
            })
            &&& read.tile_bar_columns == (match stored.tile_bar_columns {
                Some(v) => v,
                None => 3u8,
            })
            &&& read.tiles_per_row == (match stored.tiles_per_row {
                Some(v) => v,
                None => 4u8,
            })
        }),
        // Leaving a field out reads the same as storing its default.
        StartPreferences::spec_from_stored(StoredStartPreferences { tiles_per_row: None, ..stored })
            == StartPreferences::spec_from_stored(StoredStartPreferences { tiles_per_row: Some(4u8), ..stored }),
        StartPreferences::spec_from_stored(StoredStartPreferences { tile_bar_columns: None, ..stored })
            == StartPreferences::spec_from_stored(StoredStartPreferences { tile_bar_columns: Some(3u8), ..stored }),
{
}

/// Saving then loading gives the saved preferences back, brought into range:
/// the stored record of any preferences reads back as those preferences, and a
/// store accepts them as their normalized form.
pub proof fn lemma_stored_round_trip(preferences: AppPreferences)
    ensures
        StartPreferences::spec_from_stored(preferences.start.spec_to_stored()) == preferences.start,
        StartPreferences::spec_from_stored(preferences.start.spec_to_stored()).spec_normalized()
            == preferences.start.spec_normalized(),
{
}

pub fn default_bar_columns() -> (r: u8)
    ensures
        r == 3,
{
    3
}

pub fn default_open_on_start_button_click() -> (r: bool)
    ensures
        r,
{
    true
}

pub fn default_rounded_tiles() -> (r: bool)
    ensures
        r,
{
    true
}

pub fn default_rounded_tile_bars() -> (r: bool)
    ensures
        r,
{
    true
}

pub fn default_tile_animation_duration_ms() -> (r: u32)
    ensures
        r == 220,
{
    220
}

pub fn default_tile_background_opacity_percent() -> (r: u8)
    ensures
        r == 64,
{
    64
}

pub fn default_tile_bar_background_opacity_percent() -> (r: u8)
    ensures
        r == 64,
{
    64
}

pub fn default_tiles_per_row() -> (r: u8)
    ensures
        r == 4,
{
    4
}

/// A place where the settings file may be, and whether a file is there.
#[derive(Clone, Debug)]
pub struct ConfigurationCandidate {
    pub path: String,
    pub is_file: bool,
}

/// The location of the settings file.
#[derive(Clone, Debug)]
pub struct ConfigurationStore {
    path: String,
}

/// The message given when no candidate location holds the settings file.
pub open spec fn missing_configuration_message() -> Seq<char> {
    "找不到配置文件 assets/settings.json"@
}

/// The index of the first candidate that is a file, if any.
pub open spec fn first_file_index(candidates: Seq<ConfigurationCandidate>) -> Option<int>
    decreases candidates.len(),
{
    if candidates.len() == 0 {
        None
    } else if candidates[0].is_file {
        Some(0)
    } else {
        match first_file_index(candidates.drop_first()) {
            Some(i) => Some(i + 1),
            None => None,
        }
    }
}

proof fn lemma_first_file_index_is(candidates: Seq<ConfigurationCandidate>, i: int)
    requires
        0 <= i < candidates.len(),
        candidates[i].is_file,
        forall|j: int| 0 <= j < i ==> !(#[trigger] candidates[j]).is_file,
    ensures
        first_file_index(candidates) == Some(i),
    decreases i,
{
    if i > 0 {
        assert(!candidates[0].is_file);
        let rest = candidates.drop_first();
        assert forall|j: int| 0 <= j < i - 1 implies !(#[trigger] rest[j]).is_file by {
            assert(rest[j] == candidates[j + 1]);
        }
        lemma_first_file_index_is(rest, i - 1);
    }
}

impl ConfigurationStore {
    /// The path of the settings file.
    pub closed spec fn path_view(&self) -> Seq<char> {
        self.path@
    }

    /// Picks the first candidate location that holds a file.
    pub fn discover(candidates: Vec<ConfigurationCandidate>) -> (r: Result<Self, String>)
        ensures
            match first_file_index(candidates@) {
                Some(i) => r matches Ok(store) && store.path_view() == candidates@[i].path@,
                None => r matches Err(message) && message@ == missing_configuration_message(),
            },
    {
        let mut index: usize = 0;
        while index < candidates.len()
            invariant
                0 <= index <= candidates.len(),
                forall|j: int| 0 <= j < index ==> !(#[trigger] candidates@[j]).is_file,
            decreases candidates.len() - index,
        {
            if candidates[index].is_file {
                proof {
                    lemma_first_file_index_is(candidates@, index as int);
                }
                let path = candidates[index].path.clone();
                return Ok(Self { path });
            }
            index += 1;
        }
        proof {
            lemma_no_file_index(candidates@);
        }
        Err(String::from_str("找不到配置文件 assets/settings.json"))
    }

    /// The path of the settings file.
    pub fn path(&self) -> (r: &str)
        ensures
            r@ == self.path_view(),
    {
        self.path.as_str()
    }

    /// The error of reading the settings file, for the system's `reason`.
    pub fn read_error(&self, reason: &str) -> (r: String)
        ensures
            r@ == "读取配置文件 "@ + self.path_view() + " 失败："@ + reason@,
    {
        let mut message = String::from_str("读取配置文件 ");
        message.append(self.path.as_str());
        message.append(" 失败：");
        message.append(reason);
        message
    }

    /// The error of parsing the settings file, for the parser's `reason`.
    pub fn parse_error(&self, reason: &str) -> (r: String)
        ensures
            r@ == "解析配置文件 "@ + self.path_view() + " 失败："@ + reason@,
    {
        let mut message = String::from_str("解析配置文件 ");
        message.append(self.path.as_str());
        message.append(" 失败：");
        message.append(reason);
        message
    }

    /// The preferences read from the settings file, brought into range.
    pub fn accept_loaded(&self, parsed: AppPreferences) -> (r: AppPreferences)
        ensures
            r.start == parsed.start.spec_normalized(),
    {
        let mut preferences = parsed;
        preferences.start.normalize();
        preferences
    }
}

proof fn lemma_no_file_index(candidates: Seq<ConfigurationCandidate>)
    requires
        forall|j: int| 0 <= j < candidates.len() ==> !(#[trigger] candidates[j]).is_file,
    ensures
        first_file_index(candidates) is None,
    decreases candidates.len(),
{
    if candidates.len() > 0 {
        let rest = candidates.drop_first();
        assert forall|j: int| 0 <= j < rest.len() implies !(#[trigger] rest[j]).is_file by {
            assert(rest[j] == candidates[j + 1]);
        }
        lemma_no_file_index(rest);
    }
}

/// The two shortcuts are stored under different names.
pub proof fn lemma_shortcut_names_distinct()
    ensures
        StartShortcut::WinShift.spec_name() != StartShortcut::Win.spec_name(),
{
    reveal_strlit("win-shift");
    reveal_strlit("win");
    assert("win-shift"@.len() != "win"@.len());
}

/// Normalizing twice gives what normalizing once gives, and what comes out of
/// normalizing is in range.
pub proof fn lemma_normalize_idempotent(preferences: StartPreferences)
    ensures
        preferences.spec_normalized().spec_normalized() == preferences.spec_normalized(),
        preferences.spec_normalized().is_normalized(),
{
    let n = preferences.spec_normalized();
    let o = min_int(preferences.opening_duration_ms as int, 5000);
    let t = min_int(preferences.tile_animation_duration_ms as int, 1000);
    assert(0 <= o / 50 * 50 <= o) by (nonlinear_arith)
        requires 0 <= o;
    assert((o / 50 * 50) % 50 == 0) by (nonlinear_arith);
    assert((o / 50 * 50) / 50 * 50 == o / 50 * 50) by (nonlinear_arith);
    assert(0 <= t / 10 * 10 <= t) by (nonlinear_arith)
        requires 0 <= t;
    assert((t / 10 * 10) % 10 == 0) by (nonlinear_arith);
    assert((t / 10 * 10) / 10 * 10 == t / 10 * 10) by (nonlinear_arith);
}

/// Preferences that are already in range are left unchanged by normalizing.
pub proof fn lemma_normalized_is_fixed_point(preferences: StartPreferences)
    requires
        preferences.is_normalized(),
    ensures
        preferences.spec_normalized() == preferences,
{
    let o = preferences.opening_duration_ms as int;
    let t = preferences.tile_animation_duration_ms as int;
    assert(o / 50 * 50 == o) by (nonlinear_arith)
        requires o % 50 == 0;
    assert(t / 10 * 10 == t) by (nonlinear_arith)
        requires t % 10 == 0;
}

} // verus!

//! The colours of the settings window, in the light and the dark mode of the
//! system, with the system's accent colour.

use vstd::prelude::*;

verus! {

/// The colour value of red, green and blue channels, as `0x00BBGGRR`.
pub open spec fn spec_rgb(red: u8, green: u8, blue: u8) -> u32 {
    (red + green * 0x100 + blue * 0x10000) as u32
}

/// The colour value of red, green and blue channels, as `0x00BBGGRR`.
pub fn rgb(red: u8, green: u8, blue: u8) -> (r: u32)
    ensures
        r == spec_rgb(red, green, blue),
{
    let (r, g, b) = (red as u32, green as u32, blue as u32);
    assert((r | (g << 8u32) | (b << 16u32)) == r + g * 0x100 + b * 0x10000) by (bit_vector)
        requires
            r < 256,
            g < 256,
            b < 256,
    ;
    r | (g << 8u32) | (b << 16u32)
}

/// The accent colour from the colorization value `0xAARRGGBB` of the desktop
/// window manager.
pub fn accent_from_colorization(value: u32) -> (r: u32)
    ensures
        r == spec_rgb(((value >> 16u32) & 0xFF) as u8, ((value >> 8u32) & 0xFF) as u8, (value & 0xFF) as u8),
{
    rgb(((value >> 16u32) & 0xFF) as u8, ((value >> 8u32) & 0xFF) as u8, (value & 0xFF) as u8)
}

/// The accent colour: the colorization value where the system reports one,
/// the default blue otherwise.
pub fn system_accent(colorization: Option<u32>) -> (r: u32)
    ensures
        r == (match colorization {
            Some(value) => spec_rgb(((value >> 16u32) & 0xFF) as u8, ((value >> 8u32) & 0xFF) as u8, (value & 0xFF) as u8),
            None => spec_rgb(0, 120, 212),
        }),
{
    match colorization {
        Some(value) => accent_from_colorization(value),
        None => rgb(0, 120, 212),
    }
}

/// Whether applications use the light theme: the registry value was read
/// (status 0) and is not zero.
pub fn apps_use_light_theme(status: u32, value: u32) -> (r: bool)
    ensures
        r == (status == 0 && value != 0),
{
    status == 0 && value != 0
}

/// The colours of the settings window.
#[derive(Clone, Copy, Debug, PartialEq, Eq, Structural)]
pub struct SettingsTheme {
    pub background: u32,
    pub sidebar: u32,
    pub card: u32,
    pub card_border: u32,
    pub text: u32,
    pub secondary_text: u32,
    pub track: u32,
    pub thumb_outer: u32,
    pub value_popup: u32,
    pub accent: u32,
    pub control_hover: u32,
    pub control_pressed: u32,
    pub switch_thumb: u32,
    pub dark: bool,
}

pub open spec fn grey(level: u8) -> u32 {
    spec_rgb(level, level, level)
}

impl SettingsTheme {
    /// The palette of the dark or the light mode with `accent`.
    pub open spec fn spec_palette(dark: bool, accent: u32) -> SettingsTheme {
        if dark {
            SettingsTheme {
                background: grey(32),
                sidebar: grey(32),
                card: grey(45),
                card_border: grey(62),
                text: grey(250),
                secondary_text: grey(190),
                track: grey(76),
                thumb_outer: grey(105),
                value_popup: grey(52),
                accent,
                control_hover: grey(88),
                control_pressed: grey(66),
                switch_thumb: grey(20),
                dark,
            }
        } else {
            SettingsTheme {
                background: grey(243),
                sidebar: grey(243),
                card: grey(251),
                card_border: grey(210),
                text: grey(25),
                secondary_text: grey(92),
                track: grey(218),
                thumb_outer: grey(255),
                value_popup: grey(255),
                accent,
                control_hover: grey(232),
                control_pressed: grey(207),
                switch_thumb: grey(255),
                dark,
            }
        }
    }

    /// The theme of the system: dark unless applications use the light theme.
    pub fn system(light: bool, accent: u32) -> (r: Self)
        ensures
            r == Self::spec_palette(!light, accent),
    {
        let dark = !light;
        if dark {
            SettingsTheme {
                background: rgb(32, 32, 32),
                sidebar: rgb(32, 32, 32),
                card: rgb(45, 45, 45),
                card_border: rgb(62, 62, 62),
                text: rgb(250, 250, 250),
                secondary_text: rgb(190, 190, 190),
                track: rgb(76, 76, 76),
                thumb_outer: rgb(105, 105, 105),
                value_popup: rgb(52, 52, 52),
                accent,
                control_hover: rgb(88, 88, 88),
                control_pressed: rgb(66, 66, 66),
                switch_thumb: rgb(20, 20, 20),
                dark,
            }
        } else {
            SettingsTheme {
                background: rgb(243, 243, 243),
                sidebar: rgb(243, 243, 243),
                card: rgb(251, 251, 251),
                card_border: rgb(210, 210, 210),
                text: rgb(25, 25, 25),
                secondary_text: rgb(92, 92, 92),
                track: rgb(218, 218, 218),
                thumb_outer: rgb(255, 255, 255),
                value_popup: rgb(255, 255, 255),
                accent,
                control_hover: rgb(232, 232, 232),
                control_pressed: rgb(207, 207, 207),
                switch_thumb: rgb(255, 255, 255),
                dark,
            }
        }
    }
}

} // verus!

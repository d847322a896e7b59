//! Settings stored for all collections: appearance and UI layout.
use vstd::prelude::*;

verus! {

/// The colour scheme.
#[derive(Clone, Copy, Debug, PartialEq, Eq, Structural)]
pub enum DarkLightMode {
    Dark,
    Light,
}

impl Default for DarkLightMode {
    fn default() -> (r: Self)
        ensures
            r == DarkLightMode::Dark,
    {
        DarkLightMode::Dark
    }
}

/// Appearance settings. The background picture is a path, held as text.
#[derive(Debug)]
pub struct Appearances {
    pub dark_lightmode: DarkLightMode,
    pub day_light_darkmode: bool,
    pub default_background_picture: String,
    pub blur: bool,
    pub adaptive_background: bool,
    pub high_contrast: bool,
    pub greyscale: bool,
    pub disable_background_picture: bool,
    pub animation: bool,
}

impl Default for Appearances {
    /// Dark mode, no background picture path, every switch off.
    fn default() -> (r: Self)
        ensures
            r.dark_lightmode == DarkLightMode::Dark,
            r.default_background_picture@ == Seq::<char>::empty(),
            !r.day_light_darkmode && !r.blur && !r.adaptive_background && !r.high_contrast,
            !r.greyscale && !r.disable_background_picture && !r.animation,
    {
        Appearances {
            dark_lightmode: DarkLightMode::Dark,
            day_light_darkmode: false,
            default_background_picture: String::new(),
            blur: false,
            adaptive_background: false,
            high_contrast: false,
            greyscale: false,
            disable_background_picture: false,
            animation: false,
        }
    }
}

/// UI layout settings.
#[derive(Clone, Copy, Debug, PartialEq, Eq, Structural)]
pub struct UILayout {
    pub completed_setup: bool,
    pub shows_recommendation: bool,
    pub sidebar_preivew: bool,
}

impl Default for UILayout {
    /// Every switch off.
    fn default() -> (r: Self)
        ensures
            !r.completed_setup && !r.shows_recommendation && !r.sidebar_preivew,
    {
        UILayout { completed_setup: false, shows_recommendation: false, sidebar_preivew: false }
    }
}

/// The default number of downloads that run at once.
pub const DEFAULT_MAX_SIMULTANEOUS_DOWNLOAD: usize = 64;

} // verus!

//! Persisted user settings and their defaults.
//!
//! Reading and writing the settings file is done by the application; this
//! module holds the settings' shape, defaults and the migration of files
//! written by older versions.
use vstd::prelude::*;

verus! {

broadcast use vstd::string::group_string_axioms;

/// Persisted user settings. Volumes are in thousandths, durations in
/// milliseconds.
#[derive(Debug, Clone)]
pub struct AppConfig {
    pub music_folder: Option<String>,
    pub palette_id: String,
    pub font_mode: String,
    pub volume_permille: u32,
    /// `"grid"` or `"list"`.
    pub library_view_mode: String,
    /// Legacy field, kept for backward compatibility on load.
    pub accent_color_hex: String,
    pub eq_enabled: bool,
    pub eq_preset_id: String,
    /// `"off"`, `"track"` or `"album"`.
    pub normalization_mode: String,
    /// Last-used sleep timer duration in minutes (0 = none).
    pub last_sleep_timer_mins: u64,
    pub crossfade_enabled: bool,
    pub crossfade_duration_ms: u32,
    /// `"linear"`, `"equal_power"` or `"overlap"`.
    pub crossfade_curve: String,
}

/// Default palette id for settings files that lack one.
pub fn default_palette_id() -> (r: String)
    ensures
        r@ == "nebula"@,
{
    "nebula".to_string()
}

/// Default font mode for settings files that lack one.
pub fn default_font_mode() -> (r: String)
    ensures
        r@ == "classic"@,
{
    "classic".to_string()
}

/// Default equalizer preset for settings files that lack one.
pub fn default_eq_preset() -> (r: String)
    ensures
        r@ == "flat"@,
{
    "flat".to_string()
}

/// Default normalization mode for settings files that lack one.
pub fn default_norm_mode() -> (r: String)
    ensures
        r@ == "off"@,
{
    "off".to_string()
}

/// Default crossfade duration (milliseconds) for settings files that lack one.
pub fn default_crossfade_duration() -> (r: u32)
    ensures
        r == 3000,
{
    3000
}

/// Default crossfade curve for settings files that lack one.
pub fn default_crossfade_curve() -> (r: String)
    ensures
        r@ == "equal_power"@,
{
    "equal_power".to_string()
}

/// The user's audio directory (`dirs::audio_dir`), as a string; it depends
/// on the environment, so nothing is claimed of it.
#[verifier::external_body]
fn audio_dir() -> (r: Option<String>) {
    dirs::audio_dir().map(|p| p.to_string_lossy().into_owned())
}

/// The configuration has the default values everywhere but the music
/// folder.
pub open spec fn is_default_apart_from_folder(c: AppConfig) -> bool {
    &&& c.palette_id@ == "nebula"@
    &&& c.font_mode@ == "classic"@
    &&& c.volume_permille == 1000
    &&& c.library_view_mode@ == "grid"@
    &&& c.accent_color_hex@ == Seq::<char>::empty()
    &&& !c.eq_enabled
    &&& c.eq_preset_id@ == "flat"@
    &&& c.normalization_mode@ == "off"@
    &&& c.last_sleep_timer_mins == 0
    &&& !c.crossfade_enabled
    &&& c.crossfade_duration_ms == 3000
    &&& c.crossfade_curve@ == "equal_power"@
}

impl AppConfig {
    /// The default settings with the given music folder.
    pub fn defaults_with_folder(music_folder: Option<String>) -> (r: Self)
        ensures
            is_default_apart_from_folder(r),
            r.music_folder == music_folder,
    {
        AppConfig {
            music_folder,
            palette_id: "nebula".to_string(),
            font_mode: "classic".to_string(),
            volume_permille: 1000,
            library_view_mode: "grid".to_string(),
            accent_color_hex: String::new(),
            eq_enabled: false,
            eq_preset_id: "flat".to_string(),
            normalization_mode: "off".to_string(),
            last_sleep_timer_mins: 0,
            crossfade_enabled: false,
            crossfade_duration_ms: 3000,
            crossfade_curve: "equal_power".to_string(),
        }
    }

    /// Fills in ids that settings files of older versions left empty.
    pub fn migrate(&mut self)
        ensures
            final(self).palette_id@ == (if old(self).palette_id@.len() == 0 { "nebula"@ } else { old(self).palette_id@ }),
            final(self).font_mode@ == (if old(self).font_mode@.len() == 0 { "classic"@ } else { old(self).font_mode@ }),
            final(self).eq_preset_id@ == (if old(self).eq_preset_id@.len() == 0 { "flat"@ } else { old(self).eq_preset_id@ }),
            final(self).normalization_mode@ == (if old(self).normalization_mode@.len() == 0 { "off"@ } else { old(self).normalization_mode@ }),
            final(self).music_folder == old(self).music_folder,
            final(self).volume_permille == old(self).volume_permille,
            final(self).library_view_mode == old(self).library_view_mode,
            final(self).accent_color_hex == old(self).accent_color_hex,
            final(self).eq_enabled == old(self).eq_enabled,
            final(self).last_sleep_timer_mins == old(self).last_sleep_timer_mins,
            final(self).crossfade_enabled == old(self).crossfade_enabled,
            final(self).crossfade_duration_ms == old(self).crossfade_duration_ms,
            final(self).crossfade_curve == old(self).crossfade_curve,
    {
        if self.palette_id.as_str().is_empty() {
            self.palette_id = "nebula".to_string();
        }
        if self.font_mode.as_str().is_empty() {
            self.font_mode = "classic".to_string();
        }
        if self.eq_preset_id.as_str().is_empty() {
            self.eq_preset_id = "flat".to_string();
        }
        if self.normalization_mode.as_str().is_empty() {
            self.normalization_mode = "off".to_string();
        }
    }
}

impl Default for AppConfig {
    /// The default settings, with the user's audio directory as the music
    /// folder.
    fn default() -> (r: Self)
        ensures
            is_default_apart_from_folder(r),
    {
        AppConfig::defaults_with_folder(audio_dir())
    }
}

} // verus!

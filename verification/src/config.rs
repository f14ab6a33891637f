//! Start-up settings: which capture device to open and the frame size to
//! ask it for, each with a default and an optional textual override.

use vstd::prelude::*;
use vstd::string::*;
use crate::decimal::{decimal_i32, parse_i32};

verus! {

/// Index of the capture device that is opened when none is named.
pub const DEFAULT_CAPTURE_DEVICE: i32 = 0;

/// Frame width asked of the capture device when none is named.
pub const DEFAULT_CAPTURE_WIDTH: i32 = 800;

/// Frame height asked of the capture device when none is named.
pub const DEFAULT_CAPTURE_HEIGHT: i32 = 600;

/// A start-up setting that can be overridden from outside.
#[derive(Clone, Copy, Debug, PartialEq, Eq, Structural)]
pub enum Setting {
    Device,
    Width,
    Height,
}

impl Setting {
    /// Name of the variable that overrides the setting.
    pub open spec fn variable_text(self) -> &'static str {
        match self {
            Setting::Device => "CAPTURE_DEVICE",
            Setting::Width => "CAPTURE_WIDTH",
            Setting::Height => "CAPTURE_HEIGHT",
        }
    }

    /// How a complaint about the setting's override begins, up to and
    /// including the equals sign that the offending text follows.
    pub open spec fn complaint_text(self) -> &'static str {
        match self {
            Setting::Device => "Invalid camera selection: CAPTURE_DEVICE=",
            Setting::Width => "Invalid capture width: CAPTURE_WIDTH=",
            Setting::Height => "Invalid capture height: CAPTURE_HEIGHT=",
        }
    }

    /// The value the setting has when it is not overridden.
    pub open spec fn default_value(self) -> i32 {
        match self {
            Setting::Device => DEFAULT_CAPTURE_DEVICE,
            Setting::Width => DEFAULT_CAPTURE_WIDTH,
            Setting::Height => DEFAULT_CAPTURE_HEIGHT,
        }
    }

    /// Name of the variable that overrides the setting.
    pub fn variable(&self) -> (name: &'static str)
        ensures
            name@ == self.variable_text()@,
    {
        match self {
            Setting::Device => "CAPTURE_DEVICE",
            Setting::Width => "CAPTURE_WIDTH",
            Setting::Height => "CAPTURE_HEIGHT",
        }
    }

    /// The value the setting has when it is not overridden.
    pub fn fallback(&self) -> (value: i32)
        ensures
            value == self.default_value(),
    {
        match self {
            Setting::Device => DEFAULT_CAPTURE_DEVICE,
            Setting::Width => DEFAULT_CAPTURE_WIDTH,
            Setting::Height => DEFAULT_CAPTURE_HEIGHT,
        }
    }
}

/// An override that does not read as a number.
#[derive(Clone, Debug, PartialEq, Eq)]
pub struct ConfigError {
    /// The setting whose override was refused.
    pub setting: Setting,
    /// The override as it was given.
    pub raw: String,
}

/// A refused override, with its text as a sequence of characters.
pub struct ConfigErrorView {
    pub setting: Setting,
    pub raw: Seq<char>,
}

impl View for ConfigError {
    type V = ConfigErrorView;

    open spec fn view(&self) -> ConfigErrorView {
        ConfigErrorView { setting: self.setting, raw: self.raw@ }
    }
}

impl ConfigError {
    /// One line that names the variable and shows the text it held.
    pub fn message(&self) -> (line: String)
        ensures
            line@ == self.setting.complaint_text()@ + self.raw@,
    {
        let opening: &'static str = match self.setting {
            Setting::Device => "Invalid camera selection: CAPTURE_DEVICE=",
            Setting::Width => "Invalid capture width: CAPTURE_WIDTH=",
            Setting::Height => "Invalid capture height: CAPTURE_HEIGHT=",
        };
        let mut line = String::from_str(opening);
        line.append(self.raw.as_str());
        line
    }
}

/// The text of an override, if there is one.
pub open spec fn override_text(raw: Option<String>) -> Option<Seq<char>> {
    match raw {
        Some(text) => Some(text@),
        None => None,
    }
}

/// The value of `setting` under the override `raw`: the default without
/// an override, the number written in the override if it is one, and
/// otherwise a complaint that carries the override.
pub open spec fn setting_value(setting: Setting, raw: Option<Seq<char>>) -> Result<
    i32,
    ConfigErrorView,
> {
    match raw {
        None => Ok(setting.default_value()),
        Some(text) => match decimal_i32(text) {
            Some(value) => Ok(value),
            None => Err(ConfigErrorView { setting, raw: text }),
        },
    }
}

/// Whether the outcome `r` of resolving a setting is the one that
/// `expected` describes.
pub open spec fn setting_outcome_is(
    r: Result<i32, ConfigError>,
    expected: Result<i32, ConfigErrorView>,
) -> bool {
    match r {
        Ok(value) => expected == Ok::<i32, ConfigErrorView>(value),
        Err(error) => expected == Err::<i32, ConfigErrorView>(error@),
    }
}

/// Resolves one setting from its override, if any.
pub fn resolve_setting(setting: Setting, raw: Option<String>) -> (r: Result<i32, ConfigError>)
    ensures
        setting_outcome_is(r, setting_value(setting, override_text(raw))),
{
    match raw {
        None => Ok(setting.fallback()),
        Some(text) => match parse_i32(text.as_str()) {
            Some(value) => Ok(value),
            None => Err(ConfigError { setting, raw: text }),
        },
    }
}

/// The frame width to ask of the capture device.
pub fn get_capture_width(raw: Option<String>) -> (r: Result<i32, ConfigError>)
    ensures
        setting_outcome_is(r, setting_value(Setting::Width, override_text(raw))),
{
    resolve_setting(Setting::Width, raw)
}

/// The frame height to ask of the capture device.
pub fn get_capture_height(raw: Option<String>) -> (r: Result<i32, ConfigError>)
    ensures
        setting_outcome_is(r, setting_value(Setting::Height, override_text(raw))),
{
    resolve_setting(Setting::Height, raw)
}

/// What is asked of the capture device when it is opened.
#[derive(Clone, Copy, Debug, PartialEq, Eq, Structural)]
pub struct CaptureConfig {
    /// Index of the device.
    pub device: i32,
    /// Frame width hint; the device may not honour it.
    pub width: i32,
    /// Frame height hint; the device may not honour it.
    pub height: i32,
}

/// Whether the outcome `r` of choosing a capture device is the one that
/// `device` describes, for a frame of `width` by `height`.
pub open spec fn capture_outcome_is(
    r: Result<CaptureConfig, ConfigError>,
    device: Result<i32, ConfigErrorView>,
    width: i32,
    height: i32,
) -> bool {
    match r {
        Ok(config) => device == Ok::<i32, ConfigErrorView>(config.device) && config.width
            == width && config.height == height,
        Err(error) => device == Err::<i32, ConfigErrorView>(error@),
    }
}

/// The capture device to open, with the frame size to ask it for.
pub fn get_capture_device(raw: Option<String>, width: i32, height: i32) -> (r: Result<
    CaptureConfig,
    ConfigError,
>)
    ensures
        capture_outcome_is(r, setting_value(Setting::Device, override_text(raw)), width, height),
{
    match resolve_setting(Setting::Device, raw) {
        Ok(device) => Ok(CaptureConfig { device, width, height }),
        Err(error) => Err(error),
    }
}

/// The overrides of the three settings as they were found, each absent
/// when its variable is not set.
#[derive(Clone, Debug, PartialEq, Eq)]
pub struct Overrides {
    pub device: Option<String>,
    pub width: Option<String>,
    pub height: Option<String>,
}

/// Overrides with their texts as sequences of characters.
pub struct OverridesView {
    pub device: Option<Seq<char>>,
    pub width: Option<Seq<char>>,
    pub height: Option<Seq<char>>,
}

impl View for Overrides {
    type V = OverridesView;

    open spec fn view(&self) -> OverridesView {
        OverridesView {
            device: override_text(self.device),
            width: override_text(self.width),
            height: override_text(self.height),
        }
    }
}

/// The capture settings under `overrides`. The width is settled first,
/// then the height, then the device, and the first override that does not
/// read as a number is the one complained about.
pub open spec fn capture_settings(overrides: OverridesView) -> Result<
    CaptureConfig,
    ConfigErrorView,
> {
    match setting_value(Setting::Width, overrides.width) {
        Err(error) => Err(error),
        Ok(width) => match setting_value(Setting::Height, overrides.height) {
            Err(error) => Err(error),
            Ok(height) => match setting_value(Setting::Device, overrides.device) {
                Err(error) => Err(error),
                Ok(device) => Ok(CaptureConfig { device, width, height }),
            },
        },
    }
}

/// Whether the outcome `r` of resolving all settings is the one that
/// `expected` describes.
pub open spec fn settings_outcome_is(
    r: Result<CaptureConfig, ConfigError>,
    expected: Result<CaptureConfig, ConfigErrorView>,
) -> bool {
    match r {
        Ok(config) => expected == Ok::<CaptureConfig, ConfigErrorView>(config),
        Err(error) => expected == Err::<CaptureConfig, ConfigErrorView>(error@),
    }
}

impl CaptureConfig {
    /// Resolves the three capture settings from their overrides.
    pub fn resolve(overrides: Overrides) -> (r: Result<CaptureConfig, ConfigError>)
        ensures
            settings_outcome_is(r, capture_settings(overrides@)),
    {
        let Overrides { device, width, height } = overrides;
        let width: i32 = match get_capture_width(width) {
            Ok(value) => value,
            Err(error) => {
                return Err(error);
            },
        };
        let height: i32 = match get_capture_height(height) {
            Ok(value) => value,
            Err(error) => {
                return Err(error);
            },
        };
        get_capture_device(device, width, height)
    }
}

} // verus!

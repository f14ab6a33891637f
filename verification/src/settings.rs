//! The fixed choices of the tool, gathered so that a session can be run
//! with others.

use vstd::prelude::*;
use crate::detection::{DetectionParams, MarkerStyle};
use crate::scale::ScaleFactor;

verus! {

/// Title of the display window, by which it is also destroyed.
pub const WINDOW_NAME: &'static str = "OpenCV Face Detection in Rust";

/// File the detector's model is loaded from.
pub const CASCADE_XML_FILE: &'static str = "haarcascade_frontalface_alt.xml";

/// Code of the key that ends the loop: Escape.
pub const KEY_CODE_ESCAPE: i32 = 27;

/// Longest wait for a key, in milliseconds, at the top of each iteration.
pub const KEY_POLL_WAIT_MS: i32 = 10;

/// The order in which a colour frame stores its channels.
#[derive(Clone, Copy, Debug, PartialEq, Eq, Structural)]
pub enum ChannelOrder {
    /// Blue, green, red: what capture devices deliver.
    Bgr,
    /// Red, green, blue.
    Rgb,
}

/// How pixels are interpolated when a frame is resized.
#[derive(Clone, Copy, Debug, PartialEq, Eq, Structural)]
pub enum Interpolation {
    Nearest,
    Linear,
}

/// Everything a session is run with.
#[derive(Clone, Copy, Debug, PartialEq, Eq)]
pub struct Settings {
    /// Channel order of the frames that the capture device delivers.
    pub channel_order: ChannelOrder,
    /// Factor by which a frame is shrunk before detection.
    pub scale: ScaleFactor,
    /// Interpolation used when shrinking.
    pub interpolation: Interpolation,
    /// Parameters of each detector call.
    pub detection: DetectionParams,
    /// How the box around a detection is drawn.
    pub style: MarkerStyle,
}

impl Settings {
    /// The tool's own settings but for the scale factor.
    pub open spec fn standard_with(scale: ScaleFactor) -> Settings {
        Settings {
            channel_order: ChannelOrder::Bgr,
            scale,
            interpolation: Interpolation::Linear,
            detection: DetectionParams::standard_params(),
            style: MarkerStyle::standard_style(),
        }
    }

    /// The settings the tool runs with: frames in blue-green-red order,
    /// shrunk to a quarter with linear interpolation, the standard detector
    /// parameters and the standard outline.
    pub fn standard() -> (settings: Settings)
        ensures
            settings == Settings::standard_with(settings.scale),
            settings.scale.num() == 1,
            settings.scale.den() == 4,
    {
        Settings::with_scale(ScaleFactor::quarter())
    }

    /// The tool's settings with another scale factor.
    pub fn with_scale(scale: ScaleFactor) -> (settings: Settings)
        ensures
            settings == Settings::standard_with(scale),
    {
        Settings {
            channel_order: ChannelOrder::Bgr,
            scale,
            interpolation: Interpolation::Linear,
            detection: DetectionParams::standard(),
            style: MarkerStyle::standard(),
        }
    }
}

} // verus!

use vstd::prelude::*;

use crate::output::LogicalSize;
use crate::rational::Rat;

verus! {

/// How the session obtains its pixels-per-point scale factor: a fixed
/// factor chosen by the embedder, or whatever the system reports.
#[derive(Clone, Copy, Debug, PartialEq, Eq, Structural)]
pub enum WindowScalePolicy {
    SystemScaleFactor,
    ScaleFactor(Rat),
}

impl WindowScalePolicy {
    /// A fixed factor must be a positive, small rational.
    pub open spec fn wf(self) -> bool {
        match self {
            WindowScalePolicy::ScaleFactor(s) => s.is_pos() && s.small(),
            WindowScalePolicy::SystemScaleFactor => true,
        }
    }
}

/// The options a window is opened with.
#[derive(Clone, Debug, PartialEq)]
pub struct WindowOpenOptions {
    pub title: String,
    pub size: LogicalSize,
    pub scale: WindowScalePolicy,
}

/// The settings of an application.
#[derive(Clone, Debug, PartialEq)]
pub struct Settings {
    /// The window settings.
    pub window: WindowOpenOptions,
}

/// The subset of the open options the session keeps for its own use.
#[derive(Clone, Debug, PartialEq)]
pub struct OpenSettings {
    pub scale_policy: WindowScalePolicy,
    pub logical_width: Rat,
    pub logical_height: Rat,
    pub title: String,
}

impl OpenSettings {
    /// Extract the session's copy of the open options.
    pub fn new(settings: &WindowOpenOptions) -> (r: OpenSettings)
        ensures
            r.scale_policy == settings.scale,
            r.logical_width == settings.size.width,
            r.logical_height == settings.size.height,
            r.title@ == settings.title@,
    {
        OpenSettings {
            scale_policy: settings.scale,
            logical_width: settings.size.width,
            logical_height: settings.size.height,
            title: settings.title.clone(),
        }
    }
}

} // verus!

//! The closed sets of semantic camera settings.

use vstd::prelude::*;

use crate::Error;

verus! {

/// The AI tracking behaviour of the camera head.
#[derive(Debug, Clone, Copy, PartialEq, Eq, Structural)]
pub enum AIMode {
    NoTracking,
    NormalTracking,
    UpperBody,
    CloseUp,
    Headless,
    LowerBody,
    DeskMode,
    Whiteboard,
    Hand,
    Group,
}

/// How the camera meters exposure.
#[derive(Debug, Clone, Copy, PartialEq, Eq, Structural)]
pub enum ExposureMode {
    Manual,
    Global,
    Face,
}

/// The field of view of the lens.
#[derive(Debug, Clone, Copy, PartialEq, Eq, Structural)]
pub enum FOVMode {
    Wide,
    Normal,
    Narrow,
}

/// How fast the head follows the tracked subject.
#[derive(Debug, Clone, Copy, PartialEq, Eq, Structural)]
pub enum TrackingMode {
    Headroom,
    Standard,
    Motion,
}

/// The numbering of [`AIMode`] used by callers that address modes by index.
pub open spec fn ai_mode_of_index(value: i32) -> Option<AIMode> {
    match value {
        0i32 => Some(AIMode::NoTracking),
        1i32 => Some(AIMode::NormalTracking),
        2i32 => Some(AIMode::UpperBody),
        3i32 => Some(AIMode::CloseUp),
        4i32 => Some(AIMode::Headless),
        5i32 => Some(AIMode::LowerBody),
        6i32 => Some(AIMode::DeskMode),
        7i32 => Some(AIMode::Whiteboard),
        8i32 => Some(AIMode::Hand),
        9i32 => Some(AIMode::Group),
        _ => None,
    }
}

/// The numbering of [`TrackingMode`] used by callers that address modes by index.
pub open spec fn tracking_mode_of_index(value: i32) -> Option<TrackingMode> {
    match value {
        0i32 => Some(TrackingMode::Headroom),
        1i32 => Some(TrackingMode::Standard),
        2i32 => Some(TrackingMode::Motion),
        _ => None,
    }
}

impl AIMode {
    /// The variant numbered `value`, or `UnsupportedIntValue` for any other integer.
    pub fn try_from(value: i32) -> (r: Result<AIMode, Error>)
        ensures
            match r {
                Ok(mode) => ai_mode_of_index(value) == Some(mode),
                Err(e) => ai_mode_of_index(value) is None && e == Error::UnsupportedIntValue(value),
            },
    {
        match value {
            0i32 => Ok(AIMode::NoTracking),
            1i32 => Ok(AIMode::NormalTracking),
            2i32 => Ok(AIMode::UpperBody),
            3i32 => Ok(AIMode::CloseUp),
            4i32 => Ok(AIMode::Headless),
            5i32 => Ok(AIMode::LowerBody),
            6i32 => Ok(AIMode::DeskMode),
            7i32 => Ok(AIMode::Whiteboard),
            8i32 => Ok(AIMode::Hand),
            9i32 => Ok(AIMode::Group),
            _ => Err(Error::UnsupportedIntValue(value)),
        }
    }

    /// The operator-facing name of the mode.
    pub fn name(&self) -> (s: &'static str)
        ensures
            s@ == ai_mode_name(*self),
    {
        match self {
            AIMode::NoTracking => "No Tracking",
            AIMode::NormalTracking => "Normal Tracking",
            AIMode::UpperBody => "Upper Body",
            AIMode::CloseUp => "Close-up",
            AIMode::Headless => "Headless",
            AIMode::LowerBody => "Lower Body",
            AIMode::DeskMode => "Desk Mode",
            AIMode::Whiteboard => "Whiteboard",
            AIMode::Hand => "Hand",
            AIMode::Group => "Group",
        }
    }
}

/// The operator-facing name of each [`AIMode`].
pub open spec fn ai_mode_name(mode: AIMode) -> Seq<char> {
    match mode {
        AIMode::NoTracking => "No Tracking"@,
        AIMode::NormalTracking => "Normal Tracking"@,
        AIMode::UpperBody => "Upper Body"@,
        AIMode::CloseUp => "Close-up"@,
        AIMode::Headless => "Headless"@,
        AIMode::LowerBody => "Lower Body"@,
        AIMode::DeskMode => "Desk Mode"@,
        AIMode::Whiteboard => "Whiteboard"@,
        AIMode::Hand => "Hand"@,
        AIMode::Group => "Group"@,
    }
}

impl TrackingMode {
    /// The variant numbered `value`, or `UnsupportedIntValue` for any other integer.
    pub fn try_from(value: i32) -> (r: Result<TrackingMode, Error>)
        ensures
            match r {
                Ok(mode) => tracking_mode_of_index(value) == Some(mode),
                Err(e) => tracking_mode_of_index(value) is None
                    && e == Error::UnsupportedIntValue(value),
            },
    {
        match value {
            0i32 => Ok(TrackingMode::Headroom),
            1i32 => Ok(TrackingMode::Standard),
            2i32 => Ok(TrackingMode::Motion),
            _ => Err(Error::UnsupportedIntValue(value)),
        }
    }
}

} // verus!

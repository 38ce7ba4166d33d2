//! Why start-up failed.
use vstd::prelude::*;
use vstd::string::StringExecFns;

verus! {

/// A failed start-up: the stage that failed, with the graphics library's own
/// account of it. None of these can be recovered from.
#[derive(Debug, PartialEq, Eq)]
pub enum EngineError {
    /// The graphics subsystem did not start.
    SubsystemInit(String),
    /// The display surface could not be created.
    SurfaceCreation(String),
    /// The bitmap is missing or is no bitmap.
    ImageLoad(String),
    /// The bitmap could not be brought into the display's pixel format.
    FormatConversion(String),
}

impl EngineError {
    /// What the graphics library said of the failure.
    pub open spec fn detail(&self) -> Seq<char> {
        match self {
            EngineError::SubsystemInit(detail) => detail@,
            EngineError::SurfaceCreation(detail) => detail@,
            EngineError::ImageLoad(detail) => detail@,
            EngineError::FormatConversion(detail) => detail@,
        }
    }

    /// What the message says before the detail. The bitmap is one thing to
    /// the user: loading it and converting it fail under the same words.
    pub open spec fn heading(&self) -> Seq<char> {
        match self {
            EngineError::SubsystemInit(_) => "Unable to initialize SDL: "@,
            EngineError::SurfaceCreation(_) => "Unable to create surface: "@,
            EngineError::ImageLoad(_) => "Unable to load bitmap: "@,
            EngineError::FormatConversion(_) => "Unable to load bitmap: "@,
        }
    }

    /// The message for the user: the heading, then the detail.
    pub fn message(&self) -> (text: String)
        ensures
            text@ == self.heading() + self.detail(),
    {
        match self {
            EngineError::SubsystemInit(detail) => String::from_str(
                "Unable to initialize SDL: ",
            ).concat(detail.as_str()),
            EngineError::SurfaceCreation(detail) => String::from_str(
                "Unable to create surface: ",
            ).concat(detail.as_str()),
            EngineError::ImageLoad(detail) => String::from_str("Unable to load bitmap: ").concat(
                detail.as_str(),
            ),
            EngineError::FormatConversion(detail) => String::from_str(
                "Unable to load bitmap: ",
            ).concat(detail.as_str()),
        }
    }
}

} // verus!

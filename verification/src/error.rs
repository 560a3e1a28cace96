//! What can go wrong, and what the user is told.

use vstd::prelude::*;
use vstd::string::*;

verus! {

/// A failure that is reported to the user.
#[derive(Debug, Clone, PartialEq, Eq)]
pub enum AudioError {
    /// The identifier, carried as typed, denotes no device.
    DeviceNotFound(String),
    /// Redirecting a single application's output is not offered.
    UnsupportedOperation,
    /// The tool that switches the default device is missing or failed.
    CollaboratorUnavailable,
}

/// The guidance given when per-application redirection is asked for.
pub open spec fn unsupported_guidance() -> Seq<char> {
    "Application-specific audio redirection requires advanced techniques:\n\nMethod 1: Use Audio Hijack Pro (commercial solution)\nMethod 2: Create an aggregate device and use Audio Units\nMethod 3: Use private Core Audio APIs (requires special entitlements)\n\nFor now, you can set the default output device which affects all apps."@
}

/// The guidance given when the switching tool cannot be used.
pub open spec fn switch_guidance() -> Seq<char> {
    "Cannot automatically switch audio device. Install SwitchAudioSource:\n\n1. Install with Homebrew: brew install switchaudio-osx\n2. Or download from: https://github.com/deweller/SwitchAudioSource\n\nThen try again. Alternatively, use macOS System Preferences > Sound."@
}

/// The report that `identifier` denotes no device.
pub open spec fn not_found_report(identifier: Seq<char>) -> Seq<char> {
    "Audio device '"@ + identifier + "' not found"@
}

impl AudioError {
    /// The text of the report.
    pub open spec fn message_spec(self) -> Seq<char> {
        match self {
            AudioError::DeviceNotFound(identifier) => not_found_report(identifier@),
            AudioError::UnsupportedOperation => unsupported_guidance(),
            AudioError::CollaboratorUnavailable => switch_guidance(),
        }
    }

    /// The text of the report.
    pub fn message(&self) -> (text: String)
        ensures
            text@ == self.message_spec(),
    {
        match self {
            AudioError::DeviceNotFound(identifier) => {
                String::from_str("Audio device '").concat(identifier.as_str()).concat("' not found")
            },
            AudioError::UnsupportedOperation => String::from_str(
                "Application-specific audio redirection requires advanced techniques:\n\nMethod 1: Use Audio Hijack Pro (commercial solution)\nMethod 2: Create an aggregate device and use Audio Units\nMethod 3: Use private Core Audio APIs (requires special entitlements)\n\nFor now, you can set the default output device which affects all apps.",
            ),
            AudioError::CollaboratorUnavailable => String::from_str(
                "Cannot automatically switch audio device. Install SwitchAudioSource:\n\n1. Install with Homebrew: brew install switchaudio-osx\n2. Or download from: https://github.com/deweller/SwitchAudioSource\n\nThen try again. Alternatively, use macOS System Preferences > Sound.",
            ),
        }
    }

    /// The exit status of a process that ends on this failure: always 1.
    pub fn exit_code(&self) -> (code: i32)
        ensures
            code == 1,
    {
        1
    }
}

} // verus!

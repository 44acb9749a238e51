//! Observer bridge over the desktop workspace notification center.
//!
//! The library models the data that flows through the bridge — the bitmask of
//! subscribed notification kinds, the registration table that maps each kind
//! to an OS selector and notification name, and the notification payload from
//! which an application identifier is resolved — and verifies the logic that
//! acts on it. The unverifiable OS glue (the Objective-C delegate class, the
//! run loop, the shared workspace singletons) lives outside the library and
//! hands it plain values.

use vstd::prelude::*;

pub mod events;
pub mod monitor;
pub mod parse;

pub use events::Event;
pub use events::NotificationKind;
pub use events::NotificationListener;
pub use monitor::AppDelegate;
pub use monitor::Monitor;
pub use monitor::Registration;

verus! {

/// The stage at which resolving an application identifier from a
/// notification payload failed.
#[derive(Clone, Debug, PartialEq, Eq, Structural)]
pub enum NSWorkspaceError {
    /// The payload lacked the application-object entry, or the entry was not
    /// a running-application handle.
    GetApplicationKey,
    /// The application handle exposed neither a bundle identifier nor a
    /// localized display name.
    GetBundleIdentifier,
    /// The notification carried no payload dictionary.
    GetUserInfo,
}

impl NSWorkspaceError {
    /// The human-readable description of this error.
    pub open spec fn spec_message(self) -> Seq<char> {
        match self {
            NSWorkspaceError::GetApplicationKey => "Failed to get application key"@,
            NSWorkspaceError::GetBundleIdentifier => "Failed to get bundle identifier"@,
            NSWorkspaceError::GetUserInfo => "Failed to get user info"@,
        }
    }

    /// Renders the error as its human-readable description.
    pub fn message(&self) -> (r: String)
        ensures
            r@ == self.spec_message(),
    {
        match self {
            NSWorkspaceError::GetApplicationKey => "Failed to get application key".to_owned(),
            NSWorkspaceError::GetBundleIdentifier => "Failed to get bundle identifier".to_owned(),
            NSWorkspaceError::GetUserInfo => "Failed to get user info".to_owned(),
        }
    }
}

} // verus!

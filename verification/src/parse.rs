use vstd::prelude::*;

use crate::NSWorkspaceError;

verus! {

/// What the identifier resolution reads of a running-application handle:
/// its bundle identifier and its localized display name, either of which a
/// sandboxed or restricted application may lack.
#[derive(Clone, Debug)]
pub struct RunningApplication {
    /// The stable identifier of the installed application, if it has one.
    pub bundle_identifier: Option<String>,
    /// The human-readable display name, if it has one.
    pub localized_name: Option<String>,
}

/// The value stored under the application key of a payload dictionary. The
/// notification center types it as an arbitrary object, so it may or may not
/// be a running-application handle.
#[derive(Clone, Debug)]
pub enum AppValue {
    /// The entry is a running-application handle.
    Application(RunningApplication),
    /// The entry is an object of some other type.
    OtherObject,
}

/// What the identifier resolution reads of a notification's payload
/// dictionary: the entry stored under the application key, if present.
#[derive(Clone, Debug)]
pub struct UserInfo {
    /// The application-object entry of the dictionary.
    pub application: Option<AppValue>,
}

/// What the identifier resolution reads of a raw notification: its payload
/// dictionary, which a notification need not carry.
#[derive(Clone, Debug)]
pub struct Notification {
    /// The payload dictionary of the notification.
    pub user_info: Option<UserInfo>,
}

/// The bundle identifier of a running-application handle, if it has one.
pub open spec fn spec_running_application_identifier(app: RunningApplication) -> Option<String> {
    app.bundle_identifier
}

/// The three-stage identifier resolution: extract the payload dictionary,
/// look up and type-check the application entry, then resolve the bundle
/// identifier with the localized display name as fallback.
pub open spec fn spec_app_identifier(n: Notification) -> Result<String, NSWorkspaceError> {
    match n.user_info {
        None => Err(NSWorkspaceError::GetUserInfo),
        Some(user_info) => match user_info.application {
            None => Err(NSWorkspaceError::GetApplicationKey),
            Some(AppValue::OtherObject) => Err(NSWorkspaceError::GetApplicationKey),
            Some(AppValue::Application(app)) => match app.bundle_identifier {
                Some(id) => Ok(id),
                None => match app.localized_name {
                    Some(name) => Ok(name),
                    None => Err(NSWorkspaceError::GetBundleIdentifier),
                },
            },
        },
    }
}

/// Returns the bundle identifier of the given running-application handle, or
/// nothing if it has none.
pub fn running_application_identifier(app: &RunningApplication) -> (r: Option<String>)
    ensures
        r == spec_running_application_identifier(*app),
{
    match &app.bundle_identifier {
        Some(id) => Some(id.clone()),
        None => None,
    }
}

/// Resolves the identifier of the application a notification is about.
///
/// Fails with `GetUserInfo` when the notification carries no payload
/// dictionary; with `GetApplicationKey` when the dictionary lacks the
/// application entry or the entry is not a running-application handle; and
/// with `GetBundleIdentifier` when the handle exposes neither a bundle
/// identifier nor a localized display name. Otherwise returns the bundle
/// identifier, falling back to the localized display name.
pub fn app_identifier_from_notification(notification: &Notification) -> (r: Result<
    String,
    NSWorkspaceError,
>)
    ensures
        r == spec_app_identifier(*notification),
{
    let user_info = match &notification.user_info {
        Some(user_info) => user_info,
        None => {
            return Err(NSWorkspaceError::GetUserInfo);
        },
    };
    let app_value = match &user_info.application {
        Some(app_value) => app_value,
        None => {
            return Err(NSWorkspaceError::GetApplicationKey);
        },
    };
    let app = match app_value {
        AppValue::Application(app) => app,
        AppValue::OtherObject => {
            return Err(NSWorkspaceError::GetApplicationKey);
        },
    };
    match (&app.bundle_identifier, &app.localized_name) {
        (Some(id), _) => Ok(id.clone()),
        (None, Some(name)) => Ok(name.clone()),
        (None, None) => Err(NSWorkspaceError::GetBundleIdentifier),
    }
}

} // verus!

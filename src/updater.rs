//! The platforms a status is mirrored to, and the state each platform's
//! adapter keeps between cycles.

use vstd::prelude::*;
use crate::fronting_status::{
    format_fronting_status, format_spec, CleanForPlatform, FrontingFormat,
    DISCORD_STATUS_MAX_LENGTH, VRCHAT_MAX_ALLOWED_STATUS_LENGTH,
};
use crate::plurality::Fronter;
use crate::users::UserConfigForUpdater;

verus! {

/// A platform whose status shows who is fronting.
#[derive(Debug, Clone, Copy, PartialEq, Eq, Structural, Hash)]
pub enum Platform {
    VRChat,
    DiscordStatusMessage,
}

impl Platform {
    /// The platform's name.
    pub fn name(&self) -> (r: &'static str)
        ensures
            r@ == match self {
                Platform::VRChat => "VRChat"@,
                Platform::DiscordStatusMessage => "DiscordStatusMessage"@,
            },
    {
        match self {
            Platform::VRChat => "VRChat",
            Platform::DiscordStatusMessage => "DiscordStatusMessage",
        }
    }
}

/// How one platform's adapter fared in the latest cycle.
#[derive(Debug, Clone)]
pub enum UpdaterStatus {
    /// The platform is switched off for this user.
    Inactive,
    /// The latest operation succeeded.
    Running,
    /// The latest operation failed, with its message.
    Error(String),
}

/// A copy of `status` that equals it.
pub fn copy_status(status: &UpdaterStatus) -> (r: UpdaterStatus)
    ensures
        r == *status,
{
    match status {
        UpdaterStatus::Inactive => UpdaterStatus::Inactive,
        UpdaterStatus::Running => UpdaterStatus::Running,
        UpdaterStatus::Error(e) => UpdaterStatus::Error(e.clone()),
    }
}

/// Every platform there is an adapter for, in the order workers visit them.
pub open spec fn all_platforms() -> Seq<Platform> {
    seq![Platform::VRChat, Platform::DiscordStatusMessage]
}

pub fn implemented_updaters() -> (r: Vec<Platform>)
    ensures
        r@ == all_platforms(),
{
    let r = vec![Platform::VRChat, Platform::DiscordStatusMessage];
    assert(r@ =~= all_platforms());
    r
}

/// The platforms this deployment offers: the social VR platform always, the
/// chat platform's status message only where it is switched on.
pub fn available_updaters(discord_status_message: bool) -> (r: Vec<Platform>)
    ensures
        r@ == if discord_status_message {
            seq![Platform::VRChat, Platform::DiscordStatusMessage]
        } else {
            seq![Platform::VRChat]
        },
{
    let mut r = vec![Platform::VRChat];
    if discord_status_message {
        r.push(Platform::DiscordStatusMessage);
    }
    assert(r@ =~= if discord_status_message {
        seq![Platform::VRChat, Platform::DiscordStatusMessage]
    } else {
        seq![Platform::VRChat]
    });
    r
}

/// Whether `config` switches `platform` on.
pub open spec fn enabled_in(platform: Platform, config: UserConfigForUpdater) -> bool {
    match platform {
        Platform::VRChat => config.enable_vrchat,
        Platform::DiscordStatusMessage => config.enable_discord_status_message,
    }
}

/// The status format a platform asks for: its length limit and character
/// set, with the user's prefix, empty text and name length.
pub open spec fn platform_format(platform: Platform, config: UserConfigForUpdater) -> FrontingFormat {
    let (max_length, cleaning) = match platform {
        Platform::VRChat => (Some(VRCHAT_MAX_ALLOWED_STATUS_LENGTH), CleanForPlatform::VRChat),
        Platform::DiscordStatusMessage => (
            Some(DISCORD_STATUS_MAX_LENGTH),
            CleanForPlatform::NoClean,
        ),
    };
    FrontingFormat {
        max_length,
        cleaning,
        prefix: config.status_prefix,
        status_if_no_fronters: config.status_no_fronts,
        truncate_names_to_length_if_status_too_long: config.status_truncate_names_to,
    }
}

/// The status line `platform` shows for `fronts`.
pub open spec fn platform_status_text(
    platform: Platform,
    config: UserConfigForUpdater,
    fronts: Seq<Fronter>,
) -> Seq<char> {
    format_spec(platform_format(platform, config), fronts)
}

/// The message recorded when an update is asked of an adapter whose setup
/// did not succeed.
pub open spec fn not_ready_message() -> Seq<char> {
    seq![
        'U', 'p', 'd', 'a', 't', 'e', 'r', ' ', 'n', 'o', 't', ' ', 'i', 'n', 'i', 't', 'a', 'l',
        'i', 'z', 'e', 'd', '!',
    ]
}

/// The error a result carries, if any.
pub open spec fn error_of(result: Result<(), String>) -> Option<String> {
    match result {
        Ok(_) => None,
        Err(e) => Some(e),
    }
}

/// The adapter state of one platform for one user.
#[derive(Debug)]
pub struct Updater {
    pub platform: Platform,
    /// The message of the latest failed operation; `None` after a success.
    pub last_operation_error: Option<String>,
    /// Whether setup succeeded, so that updates can be sent.
    pub ready: bool,
}

/// The status an adapter reports: inactive when its platform is off, else
/// the latest error, else running.
pub open spec fn status_spec(u: Updater, config: UserConfigForUpdater) -> UpdaterStatus {
    if !enabled_in(u.platform, config) {
        UpdaterStatus::Inactive
    } else {
        match u.last_operation_error {
            Some(e) => UpdaterStatus::Error(e),
            None => UpdaterStatus::Running,
        }
    }
}

impl Updater {
    pub fn new(platform: Platform) -> (r: Self)
        ensures
            r.platform == platform,
            r.last_operation_error is None,
            r.ready == (platform == Platform::DiscordStatusMessage),
    {
        Updater {
            platform,
            last_operation_error: None,
            ready: match platform {
                Platform::VRChat => false,
                Platform::DiscordStatusMessage => true,
            },
        }
    }

    pub fn platform(&self) -> (r: Platform)
        ensures
            r == self.platform,
    {
        self.platform
    }

    pub fn enabled(&self, config: &UserConfigForUpdater) -> (r: bool)
        ensures
            r == enabled_in(self.platform, *config),
    {
        match self.platform {
            Platform::VRChat => config.enable_vrchat,
            Platform::DiscordStatusMessage => config.enable_discord_status_message,
        }
    }

    pub fn last_operation_error(&self) -> (r: Option<&String>)
        ensures
            match self.last_operation_error {
                Some(e) => r == Some(&e),
                None => r is None,
            },
    {
        match &self.last_operation_error {
            Some(e) => Some(e),
            None => None,
        }
    }

    pub fn status(&self, config: &UserConfigForUpdater) -> (r: UpdaterStatus)
        ensures
            r == status_spec(*self, *config),
    {
        if self.enabled(config) {
            match &self.last_operation_error {
                Some(e) => UpdaterStatus::Error(e.clone()),
                None => UpdaterStatus::Running,
            }
        } else {
            UpdaterStatus::Inactive
        }
    }

    /// The format this platform wants its status in.
    pub fn fronting_format(&self, config: &UserConfigForUpdater) -> (r: FrontingFormat)
        ensures
            r == platform_format(self.platform, *config),
    {
        let (max_length, cleaning) = match self.platform {
            Platform::VRChat => (Some(VRCHAT_MAX_ALLOWED_STATUS_LENGTH), CleanForPlatform::VRChat),
            Platform::DiscordStatusMessage => (
                Some(DISCORD_STATUS_MAX_LENGTH),
                CleanForPlatform::NoClean,
            ),
        };
        FrontingFormat {
            max_length,
            cleaning,
            prefix: config.status_prefix.clone(),
            status_if_no_fronters: config.status_no_fronts.clone(),
            truncate_names_to_length_if_status_too_long: config.status_truncate_names_to,
        }
    }

    /// Records how setup went: a failure is kept as the latest error and
    /// leaves the adapter unable to send updates.
    pub fn record_setup(&mut self, result: Result<(), String>)
        ensures
            final(self).platform == old(self).platform,
            final(self).last_operation_error == error_of(result),
            final(self).ready == (result is Ok),
    {
        self.ready = result.is_ok();
        self.last_operation_error = match result {
            Ok(_) => None,
            Err(e) => Some(e),
        };
    }

    /// Records how an update went: the error on failure, none on success.
    pub fn record_result(&mut self, result: Result<(), String>)
        ensures
            final(self).platform == old(self).platform,
            final(self).ready == old(self).ready,
            final(self).last_operation_error == error_of(result),
    {
        self.last_operation_error = match result {
            Ok(_) => None,
            Err(e) => Some(e),
        };
    }

    /// Starts an update: the status line to send, or `None` with the error
    /// recorded when setup has not succeeded.
    pub fn prepare_update(&mut self, config: &UserConfigForUpdater, fronts: &Vec<Fronter>) -> (r:
        Option<String>)
        ensures
            final(self).platform == old(self).platform,
            final(self).ready == old(self).ready,
            old(self).ready ==> {
                &&& final(self).last_operation_error == old(self).last_operation_error
                &&& r is Some
                &&& r->0@ == platform_status_text(old(self).platform, *config, fronts@)
            },
            !old(self).ready ==> r is None && final(self).last_operation_error is Some
                && final(self).last_operation_error->0@ == not_ready_message(),
    {
        if self.ready {
            let format = self.fronting_format(config);
            let text = format_fronting_status(&format, fronts);
            Some(text)
        } else {
            let message = "Updater not initalized!";
            proof {
                reveal_strlit("Updater not initalized!");
            }
            let m = message.to_owned();
            assert(m@ =~= not_ready_message());
            self.last_operation_error = Some(m);
            None
        }
    }
}

} // verus!

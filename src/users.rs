//! Users, their stored configuration, and the validated configuration a
//! worker runs with.

use vstd::prelude::*;
use crate::database::{
    downgrade, only_use_this_function_to_mark_validation_after_you_have_actually_validated_it,
    ConstraintsType, Decrypted, InvalidConstraints, SecretType, ValidConstraints,
};

verus! {

/// A user, by the 128 bits of their UUID.
#[derive(Debug, Clone, Copy, PartialEq, Eq, Structural, Hash)]
pub struct UserId {
    pub inner: u128,
}

#[derive(Debug, Clone)]
pub struct Email {
    pub inner: String,
}

/// The time a worker waits between two cycles.
#[derive(Debug, Clone, Copy, PartialEq, Eq, Structural, Default)]
pub struct WaitSeconds {
    pub secs: u64,
}

/// A user's configuration as stored: every field may be unset, in which case
/// a default applies where there is one.
#[derive(Debug, Clone, Default)]
pub struct UserConfigDbEntries<Secret: SecretType, Constraints: ConstraintsType = InvalidConstraints> {
    pub valid_constraints: Option<Constraints>,
    pub wait_seconds: Option<i32>,
    pub system_name: Option<String>,
    pub status_prefix: Option<String>,
    pub status_no_fronts: Option<String>,
    pub status_truncate_names_to: Option<i32>,
    pub enable_discord_status_message: Option<bool>,
    pub enable_vrchat: Option<bool>,
    pub simply_plural_token: Option<Secret>,
    pub discord_status_message_token: Option<Secret>,
    pub vrchat_username: Option<Secret>,
    pub vrchat_password: Option<Secret>,
    pub vrchat_cookie: Option<Secret>,
}

/// `value` if it is set, else `default`.
pub open spec fn or_default<T>(value: Option<T>, default: Option<T>) -> Option<T> {
    match value {
        Some(v) => Some(v),
        None => default,
    }
}

pub fn copy_option<T: Copy>(value: &Option<T>) -> (r: Option<T>)
    ensures
        r == *value,
{
    match value {
        Some(v) => Some(*v),
        None => None,
    }
}

pub fn copy_text(value: &Option<String>) -> (r: Option<String>)
    ensures
        r == *value,
{
    match value {
        Some(v) => Some(v.clone()),
        None => None,
    }
}

pub fn copy_secret<S: SecretType>(value: &Option<S>) -> (r: Option<S>)
    ensures
        r == *value,
{
    match value {
        Some(v) => Some(v.duplicate()),
        None => None,
    }
}

fn text_or(value: &Option<String>, default: &Option<String>) -> (r: Option<String>)
    ensures
        r == or_default(*value, *default),
{
    match value {
        Some(v) => Some(v.clone()),
        None => copy_text(default),
    }
}

fn secret_or<S: SecretType>(value: &Option<S>, default: &Option<S>) -> (r: Option<S>)
    ensures
        r == or_default(*value, *default),
{
    match value {
        Some(v) => Some(v.duplicate()),
        None => copy_secret(default),
    }
}

fn copy_or<T: Copy>(value: &Option<T>, default: &Option<T>) -> (r: Option<T>)
    ensures
        r == or_default(*value, *default),
{
    match value {
        Some(v) => Some(*v),
        None => copy_option(default),
    }
}

impl<S: SecretType> UserConfigDbEntries<S, InvalidConstraints> {
    /// Each unset field of `self` takes the value of `defaults`.
    pub fn with_option_defaults(&self, defaults: &Self) -> (r: Self)
        ensures
            r.valid_constraints == or_default(self.valid_constraints, defaults.valid_constraints),
            r.wait_seconds == or_default(self.wait_seconds, defaults.wait_seconds),
            r.system_name == or_default(self.system_name, defaults.system_name),
            r.status_prefix == or_default(self.status_prefix, defaults.status_prefix),
            r.status_no_fronts == or_default(self.status_no_fronts, defaults.status_no_fronts),
            r.status_truncate_names_to == or_default(
                self.status_truncate_names_to,
                defaults.status_truncate_names_to,
            ),
            r.enable_discord_status_message == or_default(
                self.enable_discord_status_message,
                defaults.enable_discord_status_message,
            ),
            r.enable_vrchat == or_default(self.enable_vrchat, defaults.enable_vrchat),
            r.simply_plural_token == or_default(
                self.simply_plural_token,
                defaults.simply_plural_token,
            ),
            r.discord_status_message_token == or_default(
                self.discord_status_message_token,
                defaults.discord_status_message_token,
            ),
            r.vrchat_username == or_default(self.vrchat_username, defaults.vrchat_username),
            r.vrchat_password == or_default(self.vrchat_password, defaults.vrchat_password),
            r.vrchat_cookie == or_default(self.vrchat_cookie, defaults.vrchat_cookie),
    {
        UserConfigDbEntries {
            valid_constraints: copy_or(&self.valid_constraints, &defaults.valid_constraints),
            wait_seconds: copy_or(&self.wait_seconds, &defaults.wait_seconds),
            system_name: text_or(&self.system_name, &defaults.system_name),
            status_prefix: text_or(&self.status_prefix, &defaults.status_prefix),
            status_no_fronts: text_or(&self.status_no_fronts, &defaults.status_no_fronts),
            status_truncate_names_to: copy_or(
                &self.status_truncate_names_to,
                &defaults.status_truncate_names_to,
            ),
            enable_discord_status_message: copy_or(
                &self.enable_discord_status_message,
                &defaults.enable_discord_status_message,
            ),
            enable_vrchat: copy_or(&self.enable_vrchat, &defaults.enable_vrchat),
            simply_plural_token: secret_or(
                &self.simply_plural_token,
                &defaults.simply_plural_token,
            ),
            discord_status_message_token: secret_or(
                &self.discord_status_message_token,
                &defaults.discord_status_message_token,
            ),
            vrchat_username: secret_or(&self.vrchat_username, &defaults.vrchat_username),
            vrchat_password: secret_or(&self.vrchat_password, &defaults.vrchat_password),
            vrchat_cookie: secret_or(&self.vrchat_cookie, &defaults.vrchat_cookie),
        }
    }
}

/// The defaults of a stored configuration: prefix `F:`, `none?` when nobody
/// fronts, names cut to 3 characters, 60 seconds between cycles, both
/// platforms off, and nothing else set.
pub open spec fn is_default_entries<S: SecretType>(e: UserConfigDbEntries<S>) -> bool {
    &&& e.valid_constraints is None
    &&& e.wait_seconds == Some(60i32)
    &&& e.system_name is None
    &&& e.status_prefix is Some && e.status_prefix->0@ == seq!['F', ':']
    &&& e.status_no_fronts is Some && e.status_no_fronts->0@ == seq!['n', 'o', 'n', 'e', '?']
    &&& e.status_truncate_names_to == Some(3i32)
    &&& e.enable_discord_status_message == Some(false)
    &&& e.enable_vrchat == Some(false)
    &&& e.simply_plural_token is None
    &&& e.discord_status_message_token is None
    &&& e.vrchat_username is None
    &&& e.vrchat_password is None
    &&& e.vrchat_cookie is None
}

pub fn default_user_db_entries<S: SecretType>() -> (r: UserConfigDbEntries<S>)
    ensures
        is_default_entries(r),
{
    let prefix = "F:";
    let no_fronts = "none?";
    proof {
        reveal_strlit("F:");
        reveal_strlit("none?");
    }
    let r = UserConfigDbEntries {
        valid_constraints: None,
        wait_seconds: Some(60),
        system_name: None,
        status_prefix: Some(prefix.to_owned()),
        status_no_fronts: Some(no_fronts.to_owned()),
        status_truncate_names_to: Some(3),
        enable_discord_status_message: Some(false),
        enable_vrchat: Some(false),
        simply_plural_token: None,
        discord_status_message_token: None,
        vrchat_username: None,
        vrchat_password: None,
        vrchat_cookie: None,
    };
    assert(r.status_prefix->0@ =~= seq!['F', ':']);
    assert(r.status_no_fronts->0@ =~= seq!['n', 'o', 'n', 'e', '?']);
    r
}

/// A field of the configuration that a worker cannot run without.
#[derive(Debug, Clone, Copy, PartialEq, Eq, Structural)]
pub enum ConfigField {
    SystemName,
    SimplyPluralToken,
    DiscordStatusMessageToken,
    VrchatUsername,
    VrchatPassword,
    StatusPrefix,
    StatusNoFronts,
    StatusTruncateNamesTo,
}

impl ConfigField {
    /// The field's name as it is stored.
    pub fn name(&self) -> (r: &'static str)
        ensures
            r@ == match self {
                ConfigField::SystemName => "system_name"@,
                ConfigField::SimplyPluralToken => "simply_plural_token"@,
                ConfigField::DiscordStatusMessageToken => "discord_status_message_token"@,
                ConfigField::VrchatUsername => "vrchat_username"@,
                ConfigField::VrchatPassword => "vrchat_password"@,
                ConfigField::StatusPrefix => "status_prefix"@,
                ConfigField::StatusNoFronts => "status_no_fronts"@,
                ConfigField::StatusTruncateNamesTo => "status_truncate_names_to"@,
            },
    {
        match self {
            ConfigField::SystemName => "system_name",
            ConfigField::SimplyPluralToken => "simply_plural_token",
            ConfigField::DiscordStatusMessageToken => "discord_status_message_token",
            ConfigField::VrchatUsername => "vrchat_username",
            ConfigField::VrchatPassword => "vrchat_password",
            ConfigField::StatusPrefix => "status_prefix",
            ConfigField::StatusNoFronts => "status_no_fronts",
            ConfigField::StatusTruncateNamesTo => "status_truncate_names_to",
        }
    }
}

/// A mandatory field is unset or holds a value that cannot be used.
#[derive(Debug, Clone, Copy, PartialEq, Eq, Structural)]
pub struct ConfigError {
    pub field: ConfigField,
}

/// The configuration one worker runs with, every mandatory field present.
#[derive(Debug, Clone)]
pub struct UserConfigForUpdater {
    pub user_id: UserId,
    pub simply_plural_base_url: String,
    pub discord_base_url: String,
    pub wait_seconds: WaitSeconds,
    pub system_name: String,
    pub status_prefix: String,
    pub status_no_fronts: String,
    pub status_truncate_names_to: usize,
    pub enable_discord_status_message: bool,
    pub enable_vrchat: bool,
    pub simply_plural_token: Decrypted,
    pub discord_status_message_token: Decrypted,
    pub vrchat_username: Decrypted,
    pub vrchat_password: Decrypted,
    pub vrchat_cookie: Decrypted,
}

/// The value a field has once the defaults are applied.
pub open spec fn effective<T>(value: Option<T>, default: T) -> Option<T> {
    or_default(value, Some(default))
}

/// Whether the platform is switched on, defaults applied.
pub open spec fn discord_enabled<C: ConstraintsType>(db: UserConfigDbEntries<Decrypted, C>) -> bool {
    effective(db.enable_discord_status_message, false)->0
}

pub open spec fn vrchat_enabled<C: ConstraintsType>(db: UserConfigDbEntries<Decrypted, C>) -> bool {
    effective(db.enable_vrchat, false)->0
}

/// The first mandatory field, in the order they are checked, that is unset
/// or unusable once the defaults are applied: a negative name length is
/// unusable, and the platform credentials are mandatory only for an enabled
/// platform.
pub open spec fn config_error<C: ConstraintsType>(db: UserConfigDbEntries<Decrypted, C>) -> Option<
    ConfigField,
> {
    if db.system_name is None {
        Some(ConfigField::SystemName)
    } else if db.simply_plural_token is None {
        Some(ConfigField::SimplyPluralToken)
    } else if discord_enabled(db) && db.discord_status_message_token is None {
        Some(ConfigField::DiscordStatusMessageToken)
    } else if vrchat_enabled(db) && db.vrchat_username is None {
        Some(ConfigField::VrchatUsername)
    } else if vrchat_enabled(db) && db.vrchat_password is None {
        Some(ConfigField::VrchatPassword)
    } else if effective(db.status_truncate_names_to, 3i32)->0 < 0 {
        Some(ConfigField::StatusTruncateNamesTo)
    } else {
        None
    }
}

/// The seconds a stored wait stands for: the stored number read as unsigned,
/// so that a negative one wraps around to a very long wait.
pub open spec fn wait_secs_of(w: i32) -> int {
    if w >= 0 {
        w as int
    } else {
        w as int + 0x1_0000_0000_0000_0000
    }
}

/// The secret in `value`, or the empty secret.
pub open spec fn secret_or_empty(value: Option<Decrypted>) -> Seq<char> {
    match value {
        Some(d) => d.secret@,
        None => seq![],
    }
}

fn require_text(value: &Option<String>, field: ConfigField) -> (r: Result<String, ConfigError>)
    ensures
        match value {
            Some(v) => r == Ok::<String, ConfigError>(*v),
            None => r == Err::<String, ConfigError>(ConfigError { field }),
        },
{
    match value {
        Some(v) => Ok(v.clone()),
        None => Err(ConfigError { field }),
    }
}

fn require_secret(value: &Option<Decrypted>, field: ConfigField) -> (r: Result<
    Decrypted,
    ConfigError,
>)
    ensures
        match value {
            Some(v) => r == Ok::<Decrypted, ConfigError>(*v),
            None => r == Err::<Decrypted, ConfigError>(ConfigError { field }),
        },
{
    match value {
        Some(v) => Ok(v.duplicate()),
        None => Err(ConfigError { field }),
    }
}

/// A secret that only an enabled platform needs: the empty secret otherwise.
fn require_secret_if(enabled: bool, value: &Option<Decrypted>, field: ConfigField) -> (r: Result<
    Decrypted,
    ConfigError,
>)
    ensures
        enabled ==> match value {
            Some(v) => r == Ok::<Decrypted, ConfigError>(*v),
            None => r == Err::<Decrypted, ConfigError>(ConfigError { field }),
        },
        !enabled ==> r is Ok && r->Ok_0.secret@ == Seq::<char>::empty(),
{
    if enabled {
        require_secret(value, field)
    } else {
        Ok(Decrypted { secret: String::new() })
    }
}

/// Validates a stored configuration into the one a worker runs with, and
/// marks the stored values as validated. Fails on the first mandatory field
/// that is unset or unusable once the defaults are applied.
pub fn create_config_with_strong_constraints<C: ConstraintsType>(
    user_id: &UserId,
    db_config: &UserConfigDbEntries<Decrypted, C>,
) -> (r: Result<(UserConfigForUpdater, UserConfigDbEntries<Decrypted, ValidConstraints>), ConfigError>)
    ensures
        r is Err <==> config_error(*db_config) is Some,
        r is Err ==> r->Err_0.field == config_error(*db_config)->0,
        r is Ok ==> {
            let (config, valid) = r->Ok_0;
            &&& config.user_id == *user_id
            &&& config.simply_plural_base_url@ == "https://api.apparyllis.com/v1"@
            &&& config.discord_base_url@ == if discord_enabled(*db_config) {
                "https://discord.com"@
            } else {
                Seq::<char>::empty()
            }
            &&& config.wait_seconds.secs as int == wait_secs_of(effective(db_config.wait_seconds, 60i32)->0)
            &&& config.system_name == db_config.system_name->0
            &&& config.status_prefix@ == match db_config.status_prefix {
                Some(p) => p@,
                None => seq!['F', ':'],
            }
            &&& config.status_no_fronts@ == match db_config.status_no_fronts {
                Some(p) => p@,
                None => seq!['n', 'o', 'n', 'e', '?'],
            }
            &&& config.status_truncate_names_to == effective(db_config.status_truncate_names_to, 3i32)->0 as usize
            &&& config.enable_discord_status_message == discord_enabled(*db_config)
            &&& config.enable_vrchat == vrchat_enabled(*db_config)
            &&& config.simply_plural_token == db_config.simply_plural_token->0
            &&& config.discord_status_message_token.secret@ == if discord_enabled(*db_config) {
                db_config.discord_status_message_token->0.secret@
            } else {
                Seq::<char>::empty()
            }
            &&& config.vrchat_username.secret@ == if vrchat_enabled(*db_config) {
                db_config.vrchat_username->0.secret@
            } else {
                Seq::<char>::empty()
            }
            &&& config.vrchat_password.secret@ == if vrchat_enabled(*db_config) {
                db_config.vrchat_password->0.secret@
            } else {
                Seq::<char>::empty()
            }
            &&& config.vrchat_cookie.secret@ == secret_or_empty(db_config.vrchat_cookie)
            &&& crate::database::same_entries(*db_config, valid)
            &&& valid.valid_constraints == Some(ValidConstraints {  })
        },
{
    let db = downgrade(db_config);
    let defaults: UserConfigDbEntries<Decrypted> = default_user_db_entries();
    let merged = db.with_option_defaults(&defaults);

    let enable_discord = match merged.enable_discord_status_message {
        Some(b) => b,
        None => false,
    };
    let enable_vrchat = match merged.enable_vrchat {
        Some(b) => b,
        None => false,
    };
    let wait = match merged.wait_seconds {
        Some(w) => w,
        None => 60,
    };
    let system_name = require_text(&merged.system_name, ConfigField::SystemName)?;
    let simply_plural_token = require_secret(
        &merged.simply_plural_token,
        ConfigField::SimplyPluralToken,
    )?;
    let discord_status_message_token = require_secret_if(
        enable_discord,
        &merged.discord_status_message_token,
        ConfigField::DiscordStatusMessageToken,
    )?;
    let vrchat_username = require_secret_if(
        enable_vrchat,
        &merged.vrchat_username,
        ConfigField::VrchatUsername,
    )?;
    let vrchat_password = require_secret_if(
        enable_vrchat,
        &merged.vrchat_password,
        ConfigField::VrchatPassword,
    )?;
    let status_prefix = require_text(&merged.status_prefix, ConfigField::StatusPrefix)?;
    let status_no_fronts = require_text(&merged.status_no_fronts, ConfigField::StatusNoFronts)?;
    let truncate = match merged.status_truncate_names_to {
        Some(t) => t,
        None => 3,
    };
    if truncate < 0 {
        return Err(ConfigError { field: ConfigField::StatusTruncateNamesTo });
    }
    let vrchat_cookie = match &merged.vrchat_cookie {
        Some(c) => c.duplicate(),
        None => Decrypted { secret: String::new() },
    };
    let secs: u64 = if wait >= 0 {
        wait as u64
    } else {
        let below: i64 = -(wait as i64) - 1;
        u64::MAX - below as u64
    };
    let discord_base_url = if enable_discord {
        "https://discord.com".to_owned()
    } else {
        String::new()
    };
    let config = UserConfigForUpdater {
        user_id: *user_id,
        simply_plural_base_url: "https://api.apparyllis.com/v1".to_owned(),
        discord_base_url,
        wait_seconds: WaitSeconds { secs },
        system_name,
        status_prefix,
        status_no_fronts,
        status_truncate_names_to: truncate as usize,
        enable_discord_status_message: enable_discord,
        enable_vrchat,
        simply_plural_token,
        discord_status_message_token,
        vrchat_username,
        vrchat_password,
        vrchat_cookie,
    };
    let valid = only_use_this_function_to_mark_validation_after_you_have_actually_validated_it(
        &db,
    );
    Ok((config, valid))
}

} // verus!

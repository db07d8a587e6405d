//! Secrets and validation markers of stored user configuration.

use vstd::prelude::*;
use crate::users::{copy_option, copy_secret, copy_text, UserConfigDbEntries};

verus! {

/// The key that user secrets are encrypted with at rest.
#[derive(Debug, Clone)]
pub struct UserSecretsDecryptionKey {
    pub inner: String,
}

/// The application-wide secret that user secrets keys derive from.
#[derive(Debug, Clone)]
pub struct ApplicationUserSecrets {
    pub inner: String,
}

/// A secret as configuration holds it: encrypted or in the clear.
pub trait SecretType: Sized {
    /// An equal copy.
    fn duplicate(&self) -> (r: Self)
        ensures
            r == *self,
    ;
}

/// A secret still encrypted: its value is never read.
#[derive(Debug, Clone, Copy, PartialEq, Eq, Structural, Default)]
pub struct Encrypted {}

/// A secret in the clear.
#[derive(Debug, Clone, Default)]
pub struct Decrypted {
    pub secret: String,
}

impl SecretType for Encrypted {
    fn duplicate(&self) -> (r: Self) {
        Encrypted {  }
    }
}

impl SecretType for Decrypted {
    fn duplicate(&self) -> (r: Self) {
        Decrypted { secret: self.secret.clone() }
    }
}

impl Decrypted {
    pub fn from_str(value: &str) -> (r: Self)
        ensures
            r.secret@ == value@,
    {
        Decrypted { secret: value.to_owned() }
    }

    pub fn from_string(secret: String) -> (r: Self)
        ensures
            r.secret == secret,
    {
        Decrypted { secret }
    }
}

/// Whether a stored configuration is known to satisfy its constraints.
pub trait ConstraintsType: Sized {
}

/// Marks a configuration that passed validation before it was stored.
#[derive(Debug, Clone, Copy, PartialEq, Eq, Structural)]
pub struct ValidConstraints {}

/// Marks a configuration that has not been validated.
#[derive(Debug, Clone, Copy, PartialEq, Eq, Structural, Default)]
pub struct InvalidConstraints {}

impl ConstraintsType for ValidConstraints {
}

impl ConstraintsType for InvalidConstraints {
}

/// `a` and `b` hold the same values, whatever their validation markers.
pub open spec fn same_entries<S: SecretType, C: ConstraintsType, D: ConstraintsType>(
    a: UserConfigDbEntries<S, C>,
    b: UserConfigDbEntries<S, D>,
) -> bool {
    &&& a.wait_seconds == b.wait_seconds
    &&& a.system_name == b.system_name
    &&& a.status_prefix == b.status_prefix
    &&& a.status_no_fronts == b.status_no_fronts
    &&& a.status_truncate_names_to == b.status_truncate_names_to
    &&& a.enable_discord_status_message == b.enable_discord_status_message
    &&& a.enable_vrchat == b.enable_vrchat
    &&& a.simply_plural_token == b.simply_plural_token
    &&& a.discord_status_message_token == b.discord_status_message_token
    &&& a.vrchat_username == b.vrchat_username
    &&& a.vrchat_password == b.vrchat_password
    &&& a.vrchat_cookie == b.vrchat_cookie
}

/// The same values, marked as not validated.
pub fn downgrade<S: SecretType, C: ConstraintsType>(value: &UserConfigDbEntries<S, C>) -> (r:
    UserConfigDbEntries<S, InvalidConstraints>)
    ensures
        same_entries(*value, r),
        r.valid_constraints == Some(InvalidConstraints {  }),
{
    UserConfigDbEntries {
        valid_constraints: Some(InvalidConstraints {  }),
        wait_seconds: copy_option(&value.wait_seconds),
        system_name: copy_text(&value.system_name),
        status_prefix: copy_text(&value.status_prefix),
        status_no_fronts: copy_text(&value.status_no_fronts),
        status_truncate_names_to: copy_option(&value.status_truncate_names_to),
        enable_discord_status_message: copy_option(&value.enable_discord_status_message),
        enable_vrchat: copy_option(&value.enable_vrchat),
        simply_plural_token: copy_secret(&value.simply_plural_token),
        discord_status_message_token: copy_secret(&value.discord_status_message_token),
        vrchat_username: copy_secret(&value.vrchat_username),
        vrchat_password: copy_secret(&value.vrchat_password),
        vrchat_cookie: copy_secret(&value.vrchat_cookie),
    }
}

/// The same values, marked as validated. Call it only on a configuration
/// that has just passed validation.
pub fn only_use_this_function_to_mark_validation_after_you_have_actually_validated_it<
    S: SecretType,
>(value: &UserConfigDbEntries<S, InvalidConstraints>) -> (r: UserConfigDbEntries<
    S,
    ValidConstraints,
>)
    ensures
        same_entries(*value, r),
        r.valid_constraints == Some(ValidConstraints {  }),
{
    UserConfigDbEntries {
        valid_constraints: Some(ValidConstraints {  }),
        wait_seconds: copy_option(&value.wait_seconds),
        system_name: copy_text(&value.system_name),
        status_prefix: copy_text(&value.status_prefix),
        status_no_fronts: copy_text(&value.status_no_fronts),
        status_truncate_names_to: copy_option(&value.status_truncate_names_to),
        enable_discord_status_message: copy_option(&value.enable_discord_status_message),
        enable_vrchat: copy_option(&value.enable_vrchat),
        simply_plural_token: copy_secret(&value.simply_plural_token),
        discord_status_message_token: copy_secret(&value.discord_status_message_token),
        vrchat_username: copy_secret(&value.vrchat_username),
        vrchat_password: copy_secret(&value.vrchat_password),
        vrchat_cookie: copy_secret(&value.vrchat_cookie),
    }
}

} // verus!

//! The credentials the social VR platform's adapter logs in with, and the
//! second factor it may ask for.

use vstd::prelude::*;
use crate::users::UserConfigForUpdater;

verus! {

#[derive(Debug, Clone)]
pub struct VRChatCredentials {
    pub username: String,
    pub password: String,
}

/// Credentials together with the session cookie of an earlier login, which
/// may be empty.
#[derive(Debug, Clone)]
pub struct VRChatCredentialsWithCookie {
    pub creds: VRChatCredentials,
    pub cookie: String,
}

impl VRChatCredentialsWithCookie {
    /// The credentials and cookie that a user's configuration holds.
    pub fn from_config(config: &UserConfigForUpdater) -> (r: Self)
        ensures
            r.creds.username@ == config.vrchat_username.secret@,
            r.creds.password@ == config.vrchat_password.secret@,
            r.cookie@ == config.vrchat_cookie.secret@,
    {
        Self::from_strings(
            config.vrchat_username.secret.as_str(),
            config.vrchat_password.secret.as_str(),
            config.vrchat_cookie.secret.as_str(),
        )
    }

    pub fn from(creds: &VRChatCredentials, cookie: &str) -> (r: Self)
        ensures
            r.creds.username@ == creds.username@,
            r.creds.password@ == creds.password@,
            r.cookie@ == cookie@,
    {
        Self::from_strings(creds.username.as_str(), creds.password.as_str(), cookie)
    }

    pub fn from_strings(username: &str, password: &str, cookie: &str) -> (r: Self)
        ensures
            r.creds.username@ == username@,
            r.creds.password@ == password@,
            r.cookie@ == cookie@,
    {
        VRChatCredentialsWithCookie {
            creds: VRChatCredentials { username: username.to_owned(), password: password.to_owned() },
            cookie: cookie.to_owned(),
        }
    }
}

/// How the second factor of a login is delivered.
#[derive(Debug, Clone, Copy, PartialEq, Eq, Structural)]
pub enum TwoFactorAuthMethod {
    TwoFactorAuthMethodEmail,
    TwoFactorAuthMethodApp,
}

/// The name of the e-mailed one-time code among the second factors a login
/// may ask for.
pub open spec fn email_otp() -> Seq<char> {
    "emailOtp"@
}

impl TwoFactorAuthMethod {
    /// The method a login asks for, from the second factors it lists: by
    /// e-mail when the list holds the e-mailed one-time code, else by app.
    pub fn from(requires_two_factor_auth: &Vec<String>) -> (r: Self)
        ensures
            (r == TwoFactorAuthMethod::TwoFactorAuthMethodEmail) <==> exists|i: int|
                0 <= i < requires_two_factor_auth.len() && #[trigger] requires_two_factor_auth@[i]@
                    == email_otp(),
    {
        let email = "emailOtp".to_owned();
        let mut i: usize = 0;
        while i < requires_two_factor_auth.len()
            invariant
                i <= requires_two_factor_auth.len(),
                email@ == email_otp(),
                forall|j: int|
                    0 <= j < i ==> #[trigger] requires_two_factor_auth@[j]@ != email_otp(),
            decreases requires_two_factor_auth.len() - i,
        {
            if requires_two_factor_auth[i] == email {
                return TwoFactorAuthMethod::TwoFactorAuthMethodEmail;
            }
            i = i + 1;
        }
        TwoFactorAuthMethod::TwoFactorAuthMethodApp
    }

    /// The method's name.
    pub fn name(&self) -> (r: &'static str)
        ensures
            r@ == match self {
                TwoFactorAuthMethod::TwoFactorAuthMethodEmail => "TwoFactorAuthMethodEmail"@,
                TwoFactorAuthMethod::TwoFactorAuthMethodApp => "TwoFactorAuthMethodApp"@,
            },
    {
        match self {
            TwoFactorAuthMethod::TwoFactorAuthMethodEmail => "TwoFactorAuthMethodEmail",
            TwoFactorAuthMethod::TwoFactorAuthMethodApp => "TwoFactorAuthMethodApp",
        }
    }
}

/// A one-time code the user entered.
#[derive(Debug, Clone)]
pub struct TwoFactorAuthCode(pub String);

#[derive(Debug, Clone)]
pub struct VRChatCredentialsWithTwoFactorAuth {
    pub creds: VRChatCredentials,
    pub method: TwoFactorAuthMethod,
    pub code: TwoFactorAuthCode,
}

} // verus!

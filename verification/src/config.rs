use vstd::prelude::*;

verus! {

/// Connection and identity settings for the homeserver account.
///
/// `device_id` and `auth_token` start out absent on a fresh installation and
/// are filled in once a login exchange has been performed.
pub struct Config {
    pub homeserver_url: String,
    pub user_id: String,
    pub device_id: Option<String>,
    pub password: Option<String>,
    pub auth_token: Option<String>,
}

impl Config {
    /// A login exchange is needed exactly when no access token is stored yet
    /// but a password is available to perform one.
    pub fn needs_login(&self) -> (r: bool)
        ensures
            r == (self.auth_token is None && self.password is Some),
    {
        self.auth_token.is_none() && self.password.is_some()
    }

    /// Records the device id and access token issued by a login exchange;
    /// everything else is left untouched.
    pub fn update_auth_details(&mut self, device_id: String, auth_token: String)
        ensures
            final(self).device_id == Some(device_id),
            final(self).auth_token == Some(auth_token),
            final(self).homeserver_url == old(self).homeserver_url,
            final(self).user_id == old(self).user_id,
            final(self).password == old(self).password,
    {
        self.device_id = Some(device_id);
        self.auth_token = Some(auth_token);
    }
}

} // verus!

use vstd::prelude::*;

verus! {

/// Basic-auth credentials for a self-hosted notification server.
#[derive(Clone, Debug)]
pub struct NtfyAuthorization {
    pub username: String,
    pub password: String,
}

impl NtfyAuthorization {
    pub fn new(username: String, password: String) -> (auth: NtfyAuthorization)
        ensures
            auth.username == username,
            auth.password == password,
    {
        NtfyAuthorization { username, password }
    }
}

/// Where requests go: a base host (ending in a separator, so that a topic
/// name appends cleanly) and optional basic-auth credentials.
#[derive(Clone, Debug)]
pub struct NtfySettings {
    pub host: String,
    pub authorization: Option<NtfyAuthorization>,
}

impl NtfySettings {
    /// Settings for `host` with no credentials.
    pub fn new(host: String) -> (s: NtfySettings)
        ensures
            s.host == host,
            s.authorization is None,
    {
        NtfySettings { host, authorization: None }
    }

    /// The same settings, with basic-auth credentials attached.
    pub fn auth(self, auth: NtfyAuthorization) -> (s: NtfySettings)
        ensures
            s.host == self.host,
            s.authorization == Some(auth),
    {
        NtfySettings { host: self.host, authorization: Some(auth) }
    }
}

impl Default for NtfySettings {
    /// The public default host, with no credentials.
    fn default() -> (s: NtfySettings)
        ensures
            s.host@ == "https://ntfy.sh/"@,
            s.authorization is None,
    {
        NtfySettings { host: "https://ntfy.sh/".to_owned(), authorization: None }
    }
}

} // verus!

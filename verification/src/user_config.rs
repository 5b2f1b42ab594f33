use vstd::prelude::*;
use crate::text::chars_of;

verus! {

/// The user's settings: the application's client id, where Spotify sends
/// the browser back to, the port the redirect listener binds, and where the
/// token cache and key bindings live (under the home directory), if set.
#[derive(Debug, Clone)]
pub struct UserConfig {
    pub client_id: String,
    pub redirect_uri: String,
    pub port: u16,
    pub token_cache_path: Option<String>,
    pub keybinds: Option<String>,
}

/// The redirect URI a new configuration starts with.
pub open spec fn default_redirect_uri() -> Seq<char> {
    "http://localhost:8888/riff"@
}

/// The listener port a new configuration starts with.
pub const DEFAULT_PORT: u16 = 8080;

/// A line as the user typed it, without the line ending that reading it
/// keeps (`\n`, or `\r\n`).
pub open spec fn without_line_end(s: Seq<char>) -> Seq<char> {
    if s.len() >= 2 && s[s.len() - 2] == '\r' && s[s.len() - 1] == '\n' {
        s.take(s.len() - 2)
    } else if s.len() >= 1 && s[s.len() - 1] == '\n' {
        s.take(s.len() - 1)
    } else {
        s
    }
}

/// The client id the user entered on a line read from the terminal.
pub fn client_id_from_line(line: &str) -> (c_id: String)
    ensures
        c_id@ == without_line_end(line@),
{
    let chars = chars_of(line);
    let n = chars.len();
    let end = if n >= 2 && chars[n - 2] == '\r' && chars[n - 1] == '\n' {
        n - 2
    } else if n >= 1 && chars[n - 1] == '\n' {
        n - 1
    } else {
        n
    };
    let kept = line.substring_char(0, end);
    let c_id = String::from_str(kept);
    assert(c_id@ =~= without_line_end(line@));
    c_id
}

impl UserConfig {
    /// A configuration for the client id the user entered, with every
    /// other setting at its default.
    pub fn new(c_id: String) -> (uc: UserConfig)
        ensures
            uc.client_id@ == c_id@,
            uc.redirect_uri@ == default_redirect_uri(),
            uc.port == DEFAULT_PORT,
            uc.token_cache_path is None,
            uc.keybinds is None,
    {
        UserConfig {
            client_id: c_id,
            redirect_uri: String::from_str("http://localhost:8888/riff"),
            port: DEFAULT_PORT,
            token_cache_path: None,
            keybinds: None,
        }
    }

    /// The client id.
    pub fn get_client_id(&self) -> (s: String)
        ensures
            s@ == self.client_id@,
    {
        self.client_id.clone()
    }

    /// The redirect URI.
    pub fn get_redirect_uri(&self) -> (s: String)
        ensures
            s@ == self.redirect_uri@,
    {
        self.redirect_uri.clone()
    }

    /// The token cache path, if one is set.
    pub fn get_token_cache_path(&self) -> (p: Option<String>)
        ensures
            match (p, self.token_cache_path) {
                (Some(a), Some(b)) => a@ == b@,
                (None, None) => true,
                _ => false,
            },
    {
        match &self.token_cache_path {
            Some(path) => Some(path.clone()),
            None => None,
        }
    }

    /// The port of the redirect listener.
    pub fn get_port(&self) -> (port: u16)
        ensures
            port == self.port,
    {
        self.port
    }
}

/// Where the configuration comes from.
#[derive(Debug)]
pub enum ConfigLoad {
    /// The configuration file was read: use this.
    Loaded(UserConfig),
    /// It could not be read: ask the user for a client id, build the
    /// configuration with `UserConfig::new` and write it out.
    Setup,
}

/// Decides where the configuration comes from, given what reading the
/// configuration file gave.
pub fn load_user_config(parsed: Option<UserConfig>) -> (load: ConfigLoad)
    ensures
        match parsed {
            Some(uc) => load == ConfigLoad::Loaded(uc),
            None => load is Setup,
        },
{
    match parsed {
        Some(uc) => ConfigLoad::Loaded(uc),
        None => ConfigLoad::Setup,
    }
}

} // verus!

use vstd::prelude::*;

use crate::models::LoginResult;

verus! {

/// What the service needs to talk to the music API and the authentication
/// API: their base URLs, the current login and the directory where files are
/// kept.
#[derive(Clone, Debug)]
pub struct App {
    pub uri: String,
    pub auth_uri: String,
    pub token: LoginResult,
    pub root_directory: String,
}

impl App {
    /// An application configuration for the two base URLs, with no login yet
    /// and no root directory.
    pub fn new(uri: String, auth_uri: String) -> (res: App)
        ensures
            res.uri == uri,
            res.auth_uri == auth_uri,
            res.token.is_empty(),
            res.root_directory@.len() == 0,
    {
        App { uri, auth_uri, token: LoginResult::default(), root_directory: String::new() }
    }
}

impl Default for App {
    fn default() -> (res: Self)
        ensures
            res.uri@.len() == 0,
            res.auth_uri@.len() == 0,
            res.token.is_empty(),
            res.root_directory@.len() == 0,
    {
        App {
            uri: String::new(),
            auth_uri: String::new(),
            token: LoginResult::default(),
            root_directory: String::new(),
        }
    }
}

} // verus!

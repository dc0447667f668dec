//! Settings that decide which conversations are served.
use vstd::prelude::*;

verus! {

pub struct Config {
    pub whitelisted_chats: Vec<i64>,
    pub token: String,
}

impl Default for Config {
    /// No conversation is whitelisted: a missing or broken configuration
    /// serves nobody.
    fn default() -> (r: Config)
        ensures
            r.whitelisted_chats@.len() == 0,
            r.token@.len() == 0,
    {
        Config { whitelisted_chats: Vec::new(), token: String::new() }
    }
}

impl Config {
    pub fn new(whitelisted_chats: Vec<i64>, token: String) -> (r: Config)
        ensures
            r.whitelisted_chats == whitelisted_chats,
            r.token == token,
    {
        Config { whitelisted_chats, token }
    }
}

} // verus!

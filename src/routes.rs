//! The read side: the per-user aggregate, host-routed lookups and the user
//! listing.
use vstd::prelude::*;

use crate::config::{find_key, lookup, Config};

pub mod get_host_user;
pub mod get_user;
pub mod get_users;

verus! {

/// A user's identity key and display name.
#[derive(Clone, Debug, PartialEq, Eq)]
pub struct MinimalUser {
    pub username: String,
    pub name: String,
}

impl MinimalUser {
    /// The listing entry of user `username`, if configured.
    pub fn from_username(config: &Config, username: &str) -> (r: Option<MinimalUser>)
        ensures
            match lookup(config.users@, username@) {
                Some(u) => r is Some && r->Some_0.username@ == username@ && r->Some_0.name == u.name,
                None => r is None,
            },
    {
        match find_key(&config.users, username) {
            Some(i) => Some(
                MinimalUser {
                    name: config.users[i].1.name.clone(),
                    username: String::from_str(username),
                },
            ),
            None => None,
        }
    }
}

} // verus!

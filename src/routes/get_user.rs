use vstd::prelude::*;

use crate::config::{
    find_key, lemma_lookup_finds_held_keys, lookup, scopes_from_bearer, scopes_of, Config,
    UserConfig,
};
use crate::fetchers::discord::{DiscordCache, DiscordUserInfo};
use crate::fetchers::icloud::{redacted, DeviceCache, DeviceInfo, Location};
use crate::fetchers::last_fm::{LastFmCache, UserInfo};
use crate::fetchers::steam::{PlayerView, SteamCache, SteamUserInfo};
use crate::host_config::HandlerConfig;
use crate::text::{copy_texts, texts_view};

verus! {

/// The snapshot caches of all sources, each read on its own.
pub struct Sources<'a> {
    pub discord: &'a DiscordCache,
    pub last_fm: &'a LastFmCache,
    pub steam: &'a SteamCache,
    pub icloud: &'a DeviceCache,
}

impl<'a> Sources<'a> {
    pub open spec fn wf(&self) -> bool {
        self.last_fm.wf() && self.icloud.wf()
    }
}

/// One user's view across all sources, as shown to one caller.
#[derive(Clone, Debug, PartialEq, Eq)]
pub struct UserAggregate {
    pub name: String,
    pub aliases: Vec<String>,
    pub pronouns: Vec<String>,
    pub time_zone: String,
    pub discord: Option<DiscordUserInfo>,
    pub last_fm: Option<UserInfo>,
    pub steam: Option<SteamUserInfo>,
    pub location: Option<Location>,
}

/// The entry of `m` under `k`, when there is a key and an entry.
pub open spec fn entry_of<K, V>(m: Map<K, V>, k: Option<K>) -> Option<V> {
    match k {
        Some(k) => if m.contains_key(k) {
            Some(m[k])
        } else {
            None
        },
        None => None,
    }
}

/// The key text of an optional key.
pub open spec fn key_text(k: Option<String>) -> Option<Seq<char>> {
    match k {
        Some(s) => Some(s@),
        None => None,
    }
}

/// The location of user `u` as `scopes` reveal it.
pub open spec fn visible_location(
    u: UserConfig,
    icloud: Map<Seq<char>, DeviceInfo>,
    scopes: Seq<Seq<char>>,
) -> Option<Location> {
    match entry_of(icloud, key_text(u.icloud_device_id)) {
        Some(d) => Some(redacted(d, scopes)),
        None => None,
    }
}

/// `l` without its time zone, which the aggregate carries on its own.
pub open spec fn without_time_zone(l: Option<Location>) -> Option<Location> {
    match l {
        Some(l) => Some(
            Location {
                country: l.country,
                locality: l.locality,
                latitude: l.latitude,
                longitude: l.longitude,
                time_zone: None,
            },
        ),
        None => None,
    }
}

/// The time zone shown for `u`: the one found at its visible location, or
/// its configured one.
pub open spec fn shown_time_zone(u: UserConfig, l: Option<Location>) -> String {
    match l {
        Some(l) => match l.time_zone {
            Some(t) => t,
            None => u.time_zone,
        },
        None => u.time_zone,
    }
}

/// The game-platform snapshot of an aggregate, by its text.
pub open spec fn steam_view(s: Option<SteamUserInfo>) -> Option<PlayerView> {
    match s {
        Some(s) => Some(s@),
        None => None,
    }
}

/// `a` is the aggregate of user `u` over the sources, for a caller granted `scopes`.
pub open spec fn aggregate_of(
    a: UserAggregate,
    u: UserConfig,
    src: Sources,
    scopes: Seq<Seq<char>>,
) -> bool {
    let loc = visible_location(u, src.icloud@, scopes);
    &&& a.name == u.name
    &&& a.aliases@ == u.aliases@
    &&& a.pronouns@ == u.pronouns@
    &&& a.discord == entry_of(src.discord@, u.discord_id)
    &&& a.last_fm == entry_of(src.last_fm@, key_text(u.last_fm_username))
    &&& steam_view(a.steam) == entry_of(src.steam@, u.steam_id)
    &&& a.location == without_time_zone(loc)
    &&& a.time_zone == shown_time_zone(u, loc)
}

/// The bearer token's text.
pub open spec fn bearer_text(b: Option<&str>) -> Option<Seq<char>> {
    match b {
        Some(t) => Some(t@),
        None => None,
    }
}

/// `r` is the answer for identity key `key`: absent for a key outside the
/// directory, else the aggregate of that user for the scopes of `bearer`.
pub open spec fn answers(
    r: Option<UserAggregate>,
    c: Config,
    src: Sources,
    key: Seq<char>,
    bearer: Option<Seq<char>>,
) -> bool {
    match lookup(c.users@, key) {
        Some(u) => r is Some && aggregate_of(r->Some_0, u, src, scopes_of(c.auth@, bearer)),
        None => r is None,
    }
}

/// The aggregate of user `username` for the caller holding `bearer`, or
/// `None` when no such user is configured.
pub fn get_user(handler: &HandlerConfig, src: &Sources, username: &str, bearer: Option<&str>) -> (r:
    Option<UserAggregate>)
    requires
        src.wf(),
    ensures
        answers(r, handler.conf(), *src, username@, bearer_text(bearer)),
{
    let config = handler.config();
    let i = match find_key(&config.users, username) {
        Some(i) => i,
        None => {
            return None;
        },
    };
    let user = &config.users[i].1;
    let scopes = scopes_from_bearer(bearer, config);
    let location = match &user.icloud_device_id {
        Some(d) => src.icloud.get_user_info(d.as_str(), &scopes),
        None => None,
    };
    let (location, time_zone) = match location {
        Some(l) => {
            let Location { country, locality, latitude, longitude, time_zone } = l;
            let tz = match time_zone {
                Some(t) => t,
                None => user.time_zone.clone(),
            };
            (Some(Location { country, locality, latitude, longitude, time_zone: None }), tz)
        },
        None => (None, user.time_zone.clone()),
    };
    let discord = match user.discord_id {
        Some(id) => match src.discord.fetch_user_info(id) {
            Some(d) => Some(d.copy()),
            None => None,
        },
        None => None,
    };
    let last_fm = match &user.last_fm_username {
        Some(n) => match src.last_fm.fetch_lastfm_info(n.as_str()) {
            Some(l) => Some(l.copy()),
            None => None,
        },
        None => None,
    };
    let steam = match user.steam_id {
        Some(id) => match src.steam.get_user_info(id) {
            Some(s) => Some(s.copy()),
            None => None,
        },
        None => None,
    };
    Some(
        UserAggregate {
            name: user.name.clone(),
            aliases: copy_texts(&user.aliases),
            pronouns: copy_texts(&user.pronouns),
            time_zone,
            discord,
            last_fm,
            steam,
            location,
        },
    )
}

/// A lookup by identity key answers with an aggregate exactly when the key is
/// one of the directory's users, whatever the sources hold.
pub proof fn lemma_configured_users_answered(
    r: Option<UserAggregate>,
    c: Config,
    src: Sources,
    key: Seq<char>,
    bearer: Option<Seq<char>>,
)
    requires
        answers(r, c, src, key, bearer),
    ensures
        (r is Some) <==> exists|i: int| 0 <= i < c.users@.len() && #[trigger] c.users@[i].0@ == key,
{
    lemma_lookup_finds_held_keys(c.users@, key);
}

} // verus!

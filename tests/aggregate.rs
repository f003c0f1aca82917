use user_presence::config::{AuthConfig, Config, UserConfig};
use user_presence::fetchers::discord::{
    build_user_info, ClientStatus, DiscordCache, PresenceReport, TypescriptOnlineStatus,
};
use user_presence::fetchers::icloud::{
    Coordinate, DeviceAddress, DeviceCache, DevicePosition, DeviceReport,
};
use user_presence::fetchers::last_fm::LastFmCache;
use user_presence::fetchers::steam::{GameNames, PlayerSummary, SteamCache};
use user_presence::host_config::HandlerConfig;
use user_presence::routes::get_host_user::get_host_user;
use user_presence::routes::get_user::{get_user, Sources};

fn directory() -> HandlerConfig {
    let alice = UserConfig {
        name: "Alice".to_string(),
        aliases: vec!["al".to_string()],
        pronouns: vec!["she".to_string(), "her".to_string()],
        time_zone: "Europe/Paris".to_string(),
        domain: Some("alice.example".to_string()),
        discord_id: Some(11),
        last_fm_username: Some("alice_fm".to_string()),
        steam_id: Some(22),
        icloud_device_id: Some("phone".to_string()),
    };
    let bob = UserConfig {
        name: "Bob".to_string(),
        aliases: vec![],
        pronouns: vec![],
        time_zone: "UTC".to_string(),
        domain: None,
        discord_id: None,
        last_fm_username: None,
        steam_id: None,
        icloud_device_id: None,
    };
    HandlerConfig::new(Config {
        discord_bot_token: None,
        discord_initial_search_guilds: vec![],
        last_fm_key: None,
        steam_api_key: None,
        bluebubbles_server: None,
        bluebubbles_server_password: None,
        auth: vec![
            ("city".to_string(), AuthConfig { scopes: vec!["icloud.city".to_string()] }),
            ("latlong".to_string(), AuthConfig { scopes: vec!["icloud.latlong".to_string()] }),
        ],
        users: vec![("alice".to_string(), alice), ("bob".to_string(), bob)],
    })
}

struct Caches {
    discord: DiscordCache,
    last_fm: LastFmCache,
    steam: SteamCache,
    icloud: DeviceCache,
}

fn caches(h: &HandlerConfig) -> Caches {
    let mut discord = DiscordCache::new();
    let p = PresenceReport {
        user_id: 11,
        status: TypescriptOnlineStatus::Online,
        client_status: Some(ClientStatus { desktop: None, mobile: Some(TypescriptOnlineStatus::Online), web: None }),
        activities: vec![],
    };
    discord.presence_update(11, build_user_info("Alice D".to_string(), &p));
    let mut steam = SteamCache::new();
    steam.perform_update(
        &GameNames::new(),
        Some(&vec![PlayerSummary { steam_id: 22, persona_name: "alice_s".to_string(), game_id: None }]),
    );
    let mut icloud = DeviceCache::new();
    icloud.apply_devices(Some(&vec![DeviceReport {
        id: "phone".to_string(),
        address: Some(DeviceAddress { country: "US".to_string(), locality: "Springfield".to_string() }),
        position: Some(DevicePosition {
            latitude: Coordinate { bits: 39.8f64.to_bits() },
            longitude: Coordinate { bits: (-89.6f64).to_bits() },
            time_zone: Some("America/Chicago".to_string()),
        }),
    }]));
    Caches { discord, last_fm: LastFmCache::new(h.config()), steam, icloud }
}

fn sources(c: &Caches) -> Sources<'_> {
    Sources { discord: &c.discord, last_fm: &c.last_fm, steam: &c.steam, icloud: &c.icloud }
}

#[test]
fn configured_users_are_found_others_are_not() {
    let h = directory();
    let c = caches(&h);
    let src = sources(&c);
    assert!(get_user(&h, &src, "alice", None).is_some());
    assert!(get_user(&h, &src, "bob", None).is_some());
    assert!(get_user(&h, &src, "carol", None).is_none());
    assert!(get_user(&h, &src, "", None).is_none());
    assert!(get_user(&h, &src, "Alice", None).is_none());
}

#[test]
fn aggregate_reads_every_source() {
    let h = directory();
    let c = caches(&h);
    let a = get_user(&h, &sources(&c), "alice", None).unwrap();
    assert_eq!(a.name, "Alice");
    assert_eq!(a.aliases, vec!["al".to_string()]);
    assert_eq!(a.pronouns, vec!["she".to_string(), "her".to_string()]);
    assert_eq!(a.discord.unwrap().display_name, "Alice D");
    assert_eq!(a.last_fm.unwrap().username, "alice_fm");
    assert_eq!(a.steam.unwrap().persona_name, "alice_s");
    let b = get_user(&h, &sources(&c), "bob", None).unwrap();
    assert!(b.discord.is_none() && b.last_fm.is_none() && b.steam.is_none() && b.location.is_none());
    assert_eq!(b.time_zone, "UTC");
}

#[test]
fn location_without_token_shows_country_only() {
    let h = directory();
    let c = caches(&h);
    let a = get_user(&h, &sources(&c), "alice", None).unwrap();
    let l = a.location.unwrap();
    assert_eq!(l.country, "US");
    assert!(l.locality.is_none() && l.latitude.is_none() && l.longitude.is_none());
    assert!(l.time_zone.is_none());
    assert_eq!(a.time_zone, "Europe/Paris");
    let unknown = get_user(&h, &sources(&c), "alice", Some("not-a-token")).unwrap();
    assert_eq!(unknown.location, Some(l));
}

#[test]
fn city_scope_adds_locality() {
    let h = directory();
    let c = caches(&h);
    let a = get_user(&h, &sources(&c), "alice", Some("city")).unwrap();
    let l = a.location.unwrap();
    assert_eq!(l.country, "US");
    assert_eq!(l.locality, Some("Springfield".to_string()));
    assert!(l.latitude.is_none() && l.longitude.is_none());
    assert_eq!(a.time_zone, "Europe/Paris");
}

#[test]
fn latlong_scope_adds_coordinates_and_time_zone() {
    let h = directory();
    let c = caches(&h);
    let a = get_user(&h, &sources(&c), "alice", Some("latlong")).unwrap();
    let l = a.location.unwrap();
    assert!(l.locality.is_none());
    assert_eq!(l.latitude.map(|x| f64::from_bits(x.bits)), Some(39.8));
    assert_eq!(l.longitude.map(|x| f64::from_bits(x.bits)), Some(-89.6));
    assert!(l.time_zone.is_none());
    assert_eq!(a.time_zone, "America/Chicago");
    assert_eq!(
        c.icloud.get_user_info("phone", &vec!["icloud.latlong".to_string()]).unwrap().time_zone,
        Some("America/Chicago".to_string())
    );
}

#[test]
fn host_user_matches_named_user() {
    let h = directory();
    let c = caches(&h);
    let by_host = get_host_user(&h, &sources(&c), "alice.example", Some("city"));
    let by_name = get_user(&h, &sources(&c), "alice", Some("city"));
    assert!(by_host.is_some());
    assert_eq!(by_host, by_name);
    assert_eq!(get_host_user(&h, &sources(&c), "alice.example:3000", None), get_user(&h, &sources(&c), "alice", None));
}

#[test]
fn unmapped_host_is_not_found() {
    let h = directory();
    let c = caches(&h);
    assert!(get_host_user(&h, &sources(&c), "bob.example", None).is_none());
    assert!(get_host_user(&h, &sources(&c), "localhost:3000", None).is_none());
}

#[test]
fn unmapped_host_does_not_reach_an_empty_key() {
    let mut config = directory().config().clone();
    config.users.push(("".to_string(), config.users[1].1.clone()));
    assert!(config.keys_distinct());
    let h = HandlerConfig::new(config);
    let c = caches(&h);
    assert!(get_user(&h, &sources(&c), "", None).is_some());
    assert!(get_host_user(&h, &sources(&c), "nobody.example", None).is_none());
}

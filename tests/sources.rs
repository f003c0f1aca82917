use user_presence::config::{AuthConfig, Config, UserConfig};
use user_presence::fetchers::discord::{
    build_user_info, emoji_from_report, run_discord_bot, ActivityReport, ClientStatus,
    DiscordCache, Emoji, EmojiReport, PresenceReport, StreamAction, StreamEvent, StreamState,
    TypescriptOnlineStatus,
};
use user_presence::fetchers::icloud::{
    Coordinate, DeviceAddress, DeviceCache, DevicePosition, DeviceReport,
};
use user_presence::fetchers::last_fm::{
    LastFmCache, NowPlayingReport, RecentTrack, TypescriptArtist, TypescriptImageSet,
};
use user_presence::fetchers::steam::{
    convert_game_list, steam_players, GameEntry, GameNames, PlayerSummary, SteamCache,
};

fn emoji(name: &str, id: Option<u64>, animated: Option<bool>) -> EmojiReport {
    EmojiReport { name: name.to_string(), id, animated }
}

fn custom(e: Option<EmojiReport>, text: Option<&str>) -> ActivityReport {
    ActivityReport { is_custom: true, emoji: e, state: text.map(|t| t.to_string()) }
}

fn game_activity() -> ActivityReport {
    ActivityReport { is_custom: false, emoji: None, state: Some("in a match".to_string()) }
}

fn presence(activities: Vec<ActivityReport>) -> PresenceReport {
    PresenceReport {
        user_id: 7,
        status: TypescriptOnlineStatus::Idle,
        client_status: Some(ClientStatus {
            desktop: Some(TypescriptOnlineStatus::Idle),
            mobile: None,
            web: None,
        }),
        activities,
    }
}

#[test]
fn emoji_classification() {
    assert_eq!(
        emoji_from_report(&emoji("🙂", None, None)),
        Emoji::Official { name: "🙂".to_string() }
    );
    assert_eq!(
        emoji_from_report(&emoji("party", Some(691), Some(true))),
        Emoji::Unofficial {
            name: "party".to_string(),
            id: 691,
            animated: true,
            url: "https://cdn.discordapp.com/emojis/691.webp?size=160&animated=true".to_string(),
        }
    );
    assert_eq!(
        emoji_from_report(&emoji("odd", Some(5), None)),
        Emoji::Unknown { name: "odd".to_string(), id: Some(5), animated: None }
    );
}

#[test]
fn presence_takes_first_custom_status() {
    let p = presence(vec![
        game_activity(),
        custom(Some(emoji("🙂", None, None)), Some("coding")),
        custom(None, Some("ignored")),
    ]);
    let info = build_user_info("Alice".to_string(), &p);
    assert_eq!(info.display_name, "Alice");
    assert_eq!(info.status, TypescriptOnlineStatus::Idle);
    assert_eq!(info.client_status, p.client_status);
    let status = info.custom_status.unwrap();
    assert_eq!(status.text, Some("coding".to_string()));
    assert_eq!(status.emoji, Some(Emoji::Official { name: "🙂".to_string() }));
    let none = build_user_info("Alice".to_string(), &presence(vec![game_activity()]));
    assert!(none.custom_status.is_none());
}

#[test]
fn presence_update_replaces_whole_snapshot() {
    let mut cache = DiscordCache::new();
    assert!(cache.fetch_user_info(7).is_none());
    let first = build_user_info(
        "Old".to_string(),
        &presence(vec![custom(Some(emoji("x", Some(1), Some(false))), Some("old"))]),
    );
    cache.presence_update(7, first);
    let mut second_p = presence(vec![]);
    second_p.status = TypescriptOnlineStatus::Online;
    second_p.client_status = None;
    let second = build_user_info("New".to_string(), &second_p);
    cache.presence_update(7, second.clone());
    assert_eq!(cache.fetch_user_info(7), Some(&second));
    assert!(cache.fetch_user_info(8).is_none());
}

#[test]
fn stream_reconnects_after_backoff() {
    assert_eq!(
        run_discord_bot(StreamState::Streaming, StreamEvent::Ended),
        (StreamState::Backoff, StreamAction::Sleep(30))
    );
    assert_eq!(
        run_discord_bot(StreamState::Backoff, StreamEvent::BackoffElapsed),
        (StreamState::Streaming, StreamAction::Start)
    );
    assert_eq!(
        run_discord_bot(StreamState::Backoff, StreamEvent::Ended),
        (StreamState::Backoff, StreamAction::Stay)
    );
    assert_eq!(
        run_discord_bot(StreamState::Streaming, StreamEvent::BackoffElapsed),
        (StreamState::Streaming, StreamAction::Stay)
    );
}

fn located(id: &str, country: &str, locality: &str, lat: f64, tz: Option<&str>) -> DeviceReport {
    DeviceReport {
        id: id.to_string(),
        address: Some(DeviceAddress { country: country.to_string(), locality: locality.to_string() }),
        position: Some(DevicePosition {
            latitude: Coordinate { bits: lat.to_bits() },
            longitude: Coordinate { bits: (-89.6f64).to_bits() },
            time_zone: tz.map(|t| t.to_string()),
        }),
    }
}

#[test]
fn device_refresh_inserts_replaces_and_removes() {
    let mut cache = DeviceCache::new();
    let all = vec!["icloud.city".to_string(), "icloud.latlong".to_string()];
    cache.apply_devices(Some(&vec![
        located("phone", "US", "Springfield", 39.8, Some("America/Chicago")),
        located("watch", "US", "Chicago", 41.9, None),
    ]));
    assert_eq!(cache.get_user_info("phone", &all).unwrap().locality, Some("Springfield".to_string()));
    cache.apply_devices(Some(&vec![
        located("phone", "CA", "Toronto", 43.7, Some("America/Toronto")),
        DeviceReport { id: "watch".to_string(), address: None, position: None },
    ]));
    let phone = cache.get_user_info("phone", &all).unwrap();
    assert_eq!(phone.country, "CA");
    assert_eq!(phone.locality, Some("Toronto".to_string()));
    assert_eq!(phone.latitude, Some(Coordinate { bits: 43.7f64.to_bits() }));
    assert_eq!(phone.time_zone, Some("America/Toronto".to_string()));
    assert!(cache.get_user_info("watch", &all).is_none());
}

#[test]
fn device_without_position_is_removed() {
    let mut cache = DeviceCache::new();
    let none: Vec<String> = vec![];
    cache.apply_devices(Some(&vec![located("phone", "US", "Springfield", 39.8, None)]));
    let mut half = located("phone", "US", "Springfield", 39.8, None);
    half.position = None;
    cache.apply_devices(Some(&vec![half]));
    assert!(cache.get_user_info("phone", &none).is_none());
}

#[test]
fn failed_device_cycle_changes_nothing() {
    let mut cache = DeviceCache::new();
    let all = vec!["icloud.city".to_string(), "icloud.latlong".to_string()];
    cache.apply_devices(Some(&vec![located("phone", "US", "Springfield", 39.8, Some("America/Chicago"))]));
    let before = cache.get_user_info("phone", &all);
    cache.apply_devices(None);
    assert_eq!(cache.get_user_info("phone", &all), before);
    assert!(before.is_some());
}

fn config_with(users: Vec<(&str, Option<&str>, Option<u64>)>) -> Config {
    Config {
        discord_bot_token: None,
        discord_initial_search_guilds: vec![],
        last_fm_key: None,
        steam_api_key: None,
        bluebubbles_server: None,
        bluebubbles_server_password: None,
        auth: Vec::<(String, AuthConfig)>::new(),
        users: users
            .into_iter()
            .map(|(k, lfm, steam)| {
                (
                    k.to_string(),
                    UserConfig {
                        name: k.to_string(),
                        aliases: vec![],
                        pronouns: vec![],
                        time_zone: "UTC".to_string(),
                        domain: None,
                        discord_id: None,
                        last_fm_username: lfm.map(|s| s.to_string()),
                        steam_id: steam,
                        icloud_device_id: None,
                    },
                )
            })
            .collect(),
    }
}

fn images() -> TypescriptImageSet {
    TypescriptImageSet {
        small: Some("s.png".to_string()),
        medium: None,
        large: None,
        extralarge: Some("xl.png".to_string()),
    }
}

fn track(name: &str) -> NowPlayingReport {
    NowPlayingReport {
        artist: TypescriptArtist {
            image: images(),
            name: "Artist".to_string(),
            url: "https://example.org/artist".to_string(),
        },
        name: name.to_string(),
        image: images(),
        album: "Album".to_string(),
        url: format!("https://example.org/{name}"),
    }
}

#[test]
fn scrobble_working_set_starts_idle() {
    let c = config_with(vec![("alice", Some("al"), None), ("bob", None, None), ("carol", Some("cz"), None)]);
    let cache = LastFmCache::new(&c);
    let al = cache.fetch_lastfm_info("al").unwrap();
    assert_eq!(al.username, "al");
    assert!(al.currently_playing.is_none());
    assert!(cache.fetch_lastfm_info("cz").is_some());
    assert!(cache.fetch_lastfm_info("bob").is_none());
}

#[test]
fn scrobble_start_time_follows_the_track() {
    let c = config_with(vec![("alice", Some("al"), None)]);
    let mut cache = LastFmCache::new(&c);
    cache.update_currently_listening(
        "al",
        Some(&vec![RecentTrack::Recorded, RecentTrack::NowPlaying(track("one"))]),
        1000,
    );
    let first = cache.fetch_lastfm_info("al").unwrap().currently_playing.clone().unwrap();
    assert_eq!(first.name, "one");
    assert_eq!(first.start_time, 1000);
    cache.update_currently_listening("al", Some(&vec![RecentTrack::NowPlaying(track("two"))]), 2000);
    let second = cache.fetch_lastfm_info("al").unwrap().currently_playing.clone().unwrap();
    assert_eq!(second.name, "two");
    assert_eq!(second.url, "https://example.org/two");
    assert_eq!(second.start_time, 2000);
    cache.update_currently_listening("al", Some(&vec![RecentTrack::NowPlaying(track("two"))]), 2500);
    let still = cache.fetch_lastfm_info("al").unwrap().currently_playing.clone().unwrap();
    assert_eq!(still, second);
    cache.update_currently_listening("al", Some(&vec![RecentTrack::Recorded]), 3000);
    assert!(cache.fetch_lastfm_info("al").unwrap().currently_playing.is_none());
    cache.update_currently_listening("al", Some(&vec![RecentTrack::NowPlaying(track("three"))]), 4000);
    let third = cache.fetch_lastfm_info("al").unwrap().currently_playing.clone().unwrap();
    assert_eq!(third.start_time, 4000);
}

#[test]
fn scrobble_cache_without_service_is_empty() {
    let cache = LastFmCache::empty();
    assert!(cache.fetch_lastfm_info("al").is_none());
}

#[test]
fn scrobble_failure_and_unknown_user_change_nothing() {
    let c = config_with(vec![("alice", Some("al"), None)]);
    let mut cache = LastFmCache::new(&c);
    cache.update_currently_listening("al", Some(&vec![RecentTrack::NowPlaying(track("one"))]), 10);
    let before = cache.fetch_lastfm_info("al").cloned();
    cache.update_currently_listening("al", None, 20);
    assert_eq!(cache.fetch_lastfm_info("al").cloned(), before);
    cache.update_currently_listening("zed", Some(&vec![RecentTrack::NowPlaying(track("x"))]), 30);
    assert!(cache.fetch_lastfm_info("zed").is_none());
}

fn summary(id: u64, name: &str, game: Option<&str>) -> PlayerSummary {
    PlayerSummary { steam_id: id, persona_name: name.to_string(), game_id: game.map(|g| g.to_string()) }
}

fn catalog() -> GameNames {
    convert_game_list(&vec![
        GameEntry { appid: Some(570), name: Some("Old name".to_string()) },
        GameEntry { appid: None, name: Some("No id".to_string()) },
        GameEntry { appid: Some(730), name: None },
        GameEntry { appid: Some(570), name: Some("Dota 2".to_string()) },
    ])
}

#[test]
fn catalog_keeps_complete_entries_later_wins() {
    let names = catalog();
    assert_eq!(names.name_of(570).map(|s| s.as_str()), Some("Dota 2"));
    assert!(names.name_of(730).is_none());
}

#[test]
fn catalog_failed_fetch_keeps_names() {
    let mut names = catalog();
    names.fetch_games(None);
    assert_eq!(names.name_of(570).map(|s| s.as_str()), Some("Dota 2"));
    names.fetch_games(Some(&vec![GameEntry { appid: Some(440), name: Some("TF2".to_string()) }]));
    assert!(names.name_of(570).is_none());
    assert_eq!(names.name_of(440).map(|s| s.as_str()), Some("TF2"));
}

#[test]
fn player_snapshots_name_their_game() {
    let names = catalog();
    let mut cache = SteamCache::new();
    cache.perform_update(&names, Some(&vec![
        summary(76561197960287930, "gabe", Some("570")),
        summary(2, "nobody", Some("999")),
        summary(3, "idle", None),
        summary(4, "odd", Some("abc")),
    ]));
    let gabe = cache.get_user_info(76561197960287930).unwrap();
    assert_eq!(gabe.steam_id, "76561197960287930");
    assert_eq!(gabe.persona_name, "gabe");
    let game = gabe.game.as_ref().unwrap();
    assert_eq!(game.appid, 570);
    assert_eq!(game.name, "Dota 2");
    assert_eq!(game.info_url, "http://store.steampowered.com/api/appdetails?appids=570&filters=basic");
    assert_eq!(cache.get_user_info(2).unwrap().game.as_ref().unwrap().name, "unknown game");
    assert!(cache.get_user_info(3).unwrap().game.is_none());
    assert!(cache.get_user_info(4).unwrap().game.is_none());
}

#[test]
fn player_refresh_replaces_and_failure_keeps() {
    let names = catalog();
    let mut cache = SteamCache::new();
    cache.perform_update(&names, Some(&vec![summary(1, "first", Some("570"))]));
    cache.perform_update(&names, Some(&vec![summary(1, "second", None)]));
    let p = cache.get_user_info(1).unwrap().clone();
    assert_eq!(p.persona_name, "second");
    assert!(p.game.is_none());
    cache.perform_update(&names, None);
    assert_eq!(cache.get_user_info(1), Some(&p));
}

#[test]
fn working_set_of_players() {
    let c = config_with(vec![("a", None, Some(5)), ("b", None, None), ("c", None, Some(9))]);
    assert_eq!(steam_players(&c), vec![5, 9]);
}

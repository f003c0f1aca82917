use vstd::prelude::*;

use crate::config::Config;
use crate::keyed::KeyedList;
use crate::text::copy_opt_text;

verus! {

/// Image addresses of a track or artist, by size.
#[derive(Clone, Debug, PartialEq, Eq)]
pub struct TypescriptImageSet {
    pub small: Option<String>,
    pub medium: Option<String>,
    pub large: Option<String>,
    pub extralarge: Option<String>,
}

/// An artist as the scrobble service describes it.
#[derive(Clone, Debug, PartialEq, Eq)]
pub struct TypescriptArtist {
    pub image: TypescriptImageSet,
    pub name: String,
    pub url: String,
}

/// The track a user is listening to, with the time it started playing, in
/// seconds since the Unix epoch.
#[derive(Clone, Debug, PartialEq, Eq)]
pub struct TypescriptTrack {
    pub artist: TypescriptArtist,
    pub name: String,
    pub image: TypescriptImageSet,
    pub album: String,
    pub url: String,
    pub start_time: i64,
}

/// What the scrobble service shows of one user.
#[derive(Clone, Debug, PartialEq, Eq)]
pub struct UserInfo {
    pub username: String,
    pub currently_playing: Option<TypescriptTrack>,
}

/// A track that the service reports as playing now.
#[derive(Clone, Debug, PartialEq, Eq)]
pub struct NowPlayingReport {
    pub artist: TypescriptArtist,
    pub name: String,
    pub image: TypescriptImageSet,
    pub album: String,
    pub url: String,
}

/// One entry of a user's recent tracks.
#[derive(Clone, Debug, PartialEq, Eq)]
pub enum RecentTrack {
    NowPlaying(NowPlayingReport),
    /// A track that was played earlier.
    Recorded,
}

impl TypescriptImageSet {
    /// A copy equal to `self`.
    pub fn copy(&self) -> (r: TypescriptImageSet)
        ensures
            r == *self,
    {
        TypescriptImageSet {
            small: copy_opt_text(&self.small),
            medium: copy_opt_text(&self.medium),
            large: copy_opt_text(&self.large),
            extralarge: copy_opt_text(&self.extralarge),
        }
    }
}

impl TypescriptArtist {
    /// A copy equal to `self`.
    pub fn copy(&self) -> (r: TypescriptArtist)
        ensures
            r == *self,
    {
        TypescriptArtist { image: self.image.copy(), name: self.name.clone(), url: self.url.clone() }
    }
}

impl TypescriptTrack {
    /// A copy equal to `self`.
    pub fn copy(&self) -> (r: TypescriptTrack)
        ensures
            r == *self,
    {
        TypescriptTrack {
            artist: self.artist.copy(),
            name: self.name.clone(),
            image: self.image.copy(),
            album: self.album.clone(),
            url: self.url.clone(),
            start_time: self.start_time,
        }
    }
}

impl UserInfo {
    /// A copy equal to `self`.
    pub fn copy(&self) -> (r: UserInfo)
        ensures
            r == *self,
    {
        UserInfo {
            username: self.username.clone(),
            currently_playing: match &self.currently_playing {
                Some(t) => Some(t.copy()),
                None => None,
            },
        }
    }
}

/// Entry `i` is the first track of `ts` that is playing now.
pub open spec fn first_now_playing(ts: Seq<RecentTrack>, i: int) -> bool {
    &&& 0 <= i < ts.len()
    &&& ts[i] is NowPlaying
    &&& forall|j: int| 0 <= j < i ==> !(#[trigger] ts[j] is NowPlaying)
}

/// The first track of `ts` that is playing now.
pub open spec fn now_playing(ts: Seq<RecentTrack>) -> Option<NowPlayingReport> {
    if exists|i: int| first_now_playing(ts, i) {
        Some(ts[choose|i: int| first_now_playing(ts, i)]->NowPlaying_0)
    } else {
        None
    }
}

proof fn lemma_now_playing_at(ts: Seq<RecentTrack>, i: int)
    requires
        first_now_playing(ts, i),
    ensures
        now_playing(ts) == Some(ts[i]->NowPlaying_0),
{
    let c = choose|c: int| first_now_playing(ts, c);
    assert(first_now_playing(ts, c));
    if c < i {
        assert(!(ts[c] is NowPlaying));
    } else if i < c {
        assert(!(ts[i] is NowPlaying));
    }
}

/// Whether `t` is the track `p` was already playing: same artist, name,
/// album and address.
pub open spec fn same_track(p: TypescriptTrack, t: NowPlayingReport) -> bool {
    &&& p.artist.name@ == t.artist.name@
    &&& p.artist.url@ == t.artist.url@
    &&& p.name@ == t.name@
    &&& p.album@ == t.album@
    &&& p.url@ == t.url@
}

/// When track `t`, playing at time `now`, started: when the previous
/// snapshot's track started if it is the same track, else `now`.
pub open spec fn start_after(prev: UserInfo, t: NowPlayingReport, now: i64) -> i64 {
    match prev.currently_playing {
        Some(p) => if same_track(p, t) {
            p.start_time
        } else {
            now
        },
        None => now,
    }
}

/// The snapshot of a user after a successful fetch at time `now`: the first
/// track playing now, if any, with the time it started.
pub open spec fn listening_after(prev: UserInfo, ts: Seq<RecentTrack>, now: i64) -> UserInfo {
    UserInfo {
        username: prev.username,
        currently_playing: match now_playing(ts) {
            Some(t) => Some(
                TypescriptTrack {
                    artist: t.artist,
                    name: t.name,
                    image: t.image,
                    album: t.album,
                    url: t.url,
                    start_time: start_after(prev, t, now),
                },
            ),
            None => None,
        },
    }
}

/// A successful fetch replaces a user's snapshot: every field of the new
/// track comes from the fetch, and the start time is the only thing the
/// previous snapshot can give, while the same track keeps playing. Across a
/// change of track, or when nothing was playing, nothing carries over.
pub proof fn lemma_listening_replaces(prev: UserInfo, ts: Seq<RecentTrack>, now: i64)
    ensures
        ({
            let r = listening_after(prev, ts, now);
            &&& r.username == prev.username
            &&& match now_playing(ts) {
                None => r.currently_playing is None,
                Some(t) => {
                    let c = r.currently_playing->Some_0;
                    &&& r.currently_playing is Some
                    &&& c.artist == t.artist
                    &&& c.name == t.name
                    &&& c.image == t.image
                    &&& c.album == t.album
                    &&& c.url == t.url
                    &&& (prev.currently_playing is None || !same_track(
                        prev.currently_playing->Some_0,
                        t,
                    )) ==> c.start_time == now
                },
            }
        }),
{
}

/// Whether some user of `c` has scrobble username `k`.
pub open spec fn has_scrobble_user(c: Config, k: Seq<char>) -> bool {
    exists|i: int|
        0 <= i < c.users@.len() && #[trigger] c.users@[i].1.last_fm_username is Some
            && c.users@[i].1.last_fm_username->Some_0@ == k
}

/// The latest listening snapshot of each configured scrobble user.
pub struct LastFmCache {
    users: KeyedList<UserInfo>,
}

impl View for LastFmCache {
    type V = Map<Seq<char>, UserInfo>;

    closed spec fn view(&self) -> Map<Seq<char>, UserInfo> {
        self.users@
    }
}

impl LastFmCache {
    pub closed spec fn wf(&self) -> bool {
        self.users.wf()
    }

    /// The working set of `config`: each configured scrobble username, with
    /// nothing playing.
    pub fn new(config: &Config) -> (r: LastFmCache)
        ensures
            r.wf(),
            forall|k: Seq<char>| #[trigger] r@.contains_key(k) <==> has_scrobble_user(*config, k),
            forall|k: Seq<char>|
                #[trigger] r@.contains_key(k) ==> r@[k].username@ == k
                    && r@[k].currently_playing is None,
    {
        let mut users: KeyedList<UserInfo> = KeyedList::new();
        let mut i: usize = 0;
        while i < config.users.len()
            invariant
                i <= config.users@.len(),
                users.wf(),
                forall|k: Seq<char>|
                    #[trigger] users@.contains_key(k) <==> exists|j: int|
                        0 <= j < i && #[trigger] config.users@[j].1.last_fm_username is Some
                            && config.users@[j].1.last_fm_username->Some_0@ == k,
                forall|k: Seq<char>|
                    #[trigger] users@.contains_key(k) ==> users@[k].username@ == k
                        && users@[k].currently_playing is None,
            decreases config.users@.len() - i,
        {
            if let Some(name) = &config.users[i].1.last_fm_username {
                let info = UserInfo { username: name.clone(), currently_playing: None };
                users.insert(name.clone(), info);
            }
            proof {
                assert forall|k: Seq<char>|
                    #[trigger] users@.contains_key(k) <== exists|j: int|
                        0 <= j < i + 1 && #[trigger] config.users@[j].1.last_fm_username is Some
                            && config.users@[j].1.last_fm_username->Some_0@ == k by {
                    let j = choose|j: int|
                        0 <= j < i + 1 && #[trigger] config.users@[j].1.last_fm_username is Some
                            && config.users@[j].1.last_fm_username->Some_0@ == k;
                    if j < i {
                    }
                }
            }
            i = i + 1;
        }
        LastFmCache { users }
    }

    /// A cache with an empty working set, for when the service is not set up.
    pub fn empty() -> (r: LastFmCache)
        ensures
            r.wf(),
            r@ == Map::<Seq<char>, UserInfo>::empty(),
    {
        LastFmCache { users: KeyedList::new() }
    }

    /// The snapshot of scrobble user `username`, if it is in the working set.
    pub fn fetch_lastfm_info(&self, username: &str) -> (r: Option<&UserInfo>)
        requires
            self.wf(),
        ensures
            match r {
                Some(u) => self@.contains_key(username@) && self@[username@] == *u,
                None => !self@.contains_key(username@),
            },
    {
        self.users.get(username)
    }

    /// Applies the outcome of one fetch of `username`'s recent tracks at time
    /// `now`: on success the user's snapshot, if it is in the working set, is
    /// replaced; on failure (`None`) nothing changes.
    pub fn update_currently_listening(
        &mut self,
        username: &str,
        fetched: Option<&Vec<RecentTrack>>,
        now: i64,
    )
        requires
            old(self).wf(),
        ensures
            final(self).wf(),
            match fetched {
                Some(ts) => if old(self)@.contains_key(username@) {
                    final(self)@ == old(self)@.insert(
                        username@,
                        listening_after(old(self)@[username@], ts@, now),
                    )
                } else {
                    final(self)@ == old(self)@
                },
                None => final(self)@ == old(self)@,
            },
    {
        let tracks = match fetched {
            Some(ts) => ts,
            None => {
                return ;
            },
        };
        let mut found: Option<usize> = None;
        let mut i: usize = 0;
        while i < tracks.len()
            invariant
                i <= tracks@.len(),
                match found {
                    Some(f) => first_now_playing(tracks@, f as int),
                    None => forall|j: int| 0 <= j < i ==> !(#[trigger] tracks@[j] is NowPlaying),
                },
            decreases tracks@.len() - i,
        {
            if found.is_none() {
                if let RecentTrack::NowPlaying(_) = &tracks[i] {
                    found = Some(i);
                }
            }
            i = i + 1;
        }
        let updated = match self.users.get(username) {
            Some(prev) => {
                let playing = match found {
                    Some(f) => {
                        proof {
                            lemma_now_playing_at(tracks@, f as int);
                        }
                        match &tracks[f] {
                            RecentTrack::NowPlaying(t) => {
                                let start_time = match &prev.currently_playing {
                                    Some(p) => if p.artist.name == t.artist.name
                                        && p.artist.url == t.artist.url && p.name == t.name
                                        && p.album == t.album && p.url == t.url {
                                        p.start_time
                                    } else {
                                        now
                                    },
                                    None => now,
                                };
                                Some(
                                    TypescriptTrack {
                                        artist: t.artist.copy(),
                                        name: t.name.clone(),
                                        image: t.image.copy(),
                                        album: t.album.clone(),
                                        url: t.url.clone(),
                                        start_time,
                                    },
                                )
                            },
                            RecentTrack::Recorded => None,
                        }
                    },
                    None => {
                        assert(!exists|j: int| first_now_playing(tracks@, j));
                        None
                    },
                };
                UserInfo { username: prev.username.clone(), currently_playing: playing }
            },
            None => {
                return ;
            },
        };
        self.users.insert(String::from_str(username), updated);
    }
}

} // verus!

use vstd::prelude::*;

use std::collections::HashMap;

use crate::config::{Config, UserConfig};
use crate::text::{
    decimal, decimal_text, digits_value, is_decimal, join_text, parse_decimal, unsigned_part,
};

verus! {

broadcast use vstd::std_specs::hash::group_hash_axioms;

/// The game a player is in.
#[derive(Clone, Debug, PartialEq, Eq)]
pub struct SteamGameInfo {
    pub appid: u64,
    pub name: String,
    pub info_url: String,
}

/// What the game platform shows of one player.
#[derive(Clone, Debug, PartialEq, Eq)]
pub struct SteamUserInfo {
    pub steam_id: String,
    pub persona_name: String,
    pub game: Option<SteamGameInfo>,
}

/// A game by app id, name and details address.
pub type GameView = (u64, Seq<char>, Seq<char>);

/// A player by id text, persona name and game.
pub type PlayerView = (Seq<char>, Seq<char>, Option<GameView>);

impl View for SteamGameInfo {
    type V = GameView;

    open spec fn view(&self) -> GameView {
        (self.appid, self.name@, self.info_url@)
    }
}

impl View for SteamUserInfo {
    type V = PlayerView;

    open spec fn view(&self) -> PlayerView {
        (
            self.steam_id@,
            self.persona_name@,
            match self.game {
                Some(g) => Some(g@),
                None => None,
            },
        )
    }
}

impl SteamGameInfo {
    /// A copy equal to `self`.
    pub fn copy(&self) -> (r: SteamGameInfo)
        ensures
            r == *self,
    {
        SteamGameInfo { appid: self.appid, name: self.name.clone(), info_url: self.info_url.clone() }
    }
}

impl SteamUserInfo {
    /// A copy equal to `self`.
    pub fn copy(&self) -> (r: SteamUserInfo)
        ensures
            r == *self,
    {
        SteamUserInfo {
            steam_id: self.steam_id.clone(),
            persona_name: self.persona_name.clone(),
            game: match &self.game {
                Some(g) => Some(g.copy()),
                None => None,
            },
        }
    }
}

/// A player summary as the game platform reports it.
#[derive(Clone, Debug, PartialEq, Eq)]
pub struct PlayerSummary {
    pub steam_id: u64,
    pub persona_name: String,
    /// The app id of the game being played, as decimal text.
    pub game_id: Option<String>,
}

/// One entry of the platform's app list.
#[derive(Clone, Debug, PartialEq, Eq)]
pub struct GameEntry {
    pub appid: Option<u64>,
    pub name: Option<String>,
}

/// The catalog after the entries `es`, in order: an entry with both an id and
/// a name names that app, a later entry winning over an earlier one.
pub open spec fn catalog_after(m: Map<u64, Seq<char>>, es: Seq<GameEntry>) -> Map<u64, Seq<char>>
    decreases es.len(),
{
    if es.len() == 0 {
        m
    } else {
        let m1 = catalog_after(m, es.drop_last());
        let e = es.last();
        match (e.appid, e.name) {
            (Some(id), Some(name)) => m1.insert(id, name@),
            _ => m1,
        }
    }
}

/// The names of the platform's apps, by app id.
pub struct GameNames {
    names: HashMap<u64, String>,
}

impl View for GameNames {
    type V = Map<u64, Seq<char>>;

    closed spec fn view(&self) -> Map<u64, Seq<char>> {
        self.names@.map_values(|s: String| s@)
    }
}

/// Builds the catalog from the app list.
pub fn convert_game_list(entries: &Vec<GameEntry>) -> (r: GameNames)
    ensures
        r@ == catalog_after(Map::empty(), entries@),
{
    let mut r = GameNames { names: HashMap::new() };
    assert(r@ =~= Map::<u64, Seq<char>>::empty());
    let mut i: usize = 0;
    while i < entries.len()
        invariant
            i <= entries@.len(),
            r@ == catalog_after(Map::empty(), entries@.subrange(0, i as int)),
        decreases entries@.len() - i,
    {
        let ghost pre = entries@.subrange(0, i as int + 1);
        assert(pre.drop_last() =~= entries@.subrange(0, i as int));
        let e = &entries[i];
        if let (Some(id), Some(name)) = (e.appid, &e.name) {
            let ghost before = r.names@;
            r.names.insert(id, name.clone());
            assert(r@ =~= before.map_values(|s: String| s@).insert(id, name@));
        }
        i = i + 1;
    }
    assert(entries@.subrange(0, entries@.len() as int) =~= entries@);
    r
}

impl GameNames {
    /// An empty catalog.
    pub fn new() -> (r: GameNames)
        ensures
            r@ == Map::<u64, Seq<char>>::empty(),
    {
        let r = GameNames { names: HashMap::new() };
        assert(r@ =~= Map::<u64, Seq<char>>::empty());
        r
    }

    /// Applies the outcome of one fetch of the app list: on success the
    /// catalog is rebuilt from it, on failure (`None`) nothing changes.
    pub fn fetch_games(&mut self, fetched: Option<&Vec<GameEntry>>)
        ensures
            match fetched {
                Some(es) => final(self)@ == catalog_after(Map::empty(), es@),
                None => final(self)@ == old(self)@,
            },
    {
        if let Some(es) = fetched {
            *self = convert_game_list(es);
        }
    }

    /// The name of app `id`.
    pub fn name_of(&self, id: u64) -> (r: Option<&String>)
        ensures
            match r {
                Some(s) => self@.contains_key(id) && self@[id] == s@,
                None => !self@.contains_key(id),
            },
    {
        self.names.get(&id)
    }
}

/// The details address of app `id`.
pub open spec fn game_info_url(id: u64) -> Seq<char> {
    "http://store.steampowered.com/api/appdetails?appids="@ + decimal(id as nat) + "&filters=basic"@
}

/// The game of app `id`, named from the catalog or as an unknown game.
pub open spec fn game_view(names: Map<u64, Seq<char>>, id: u64) -> GameView {
    (
        id,
        if names.contains_key(id) {
            names[id]
        } else {
            "unknown game"@
        },
        game_info_url(id),
    )
}

/// The snapshot of a player summary. A game id that is not decimal text
/// fitting in 64 bits stands for no game.
pub open spec fn player_view(names: Map<u64, Seq<char>>, p: PlayerSummary) -> PlayerView {
    (
        decimal(p.steam_id as nat),
        p.persona_name@,
        match p.game_id {
            Some(g) => if is_decimal(g@) && digits_value(unsigned_part(g@)) <= u64::MAX {
                Some(game_view(names, digits_value(unsigned_part(g@)) as u64))
            } else {
                None
            },
            None => None,
        },
    )
}

/// The cache after the summaries `ps`, in order: each player's snapshot is
/// replaced whole.
pub open spec fn summaries_after(
    m: Map<u64, PlayerView>,
    names: Map<u64, Seq<char>>,
    ps: Seq<PlayerSummary>,
) -> Map<u64, PlayerView>
    decreases ps.len(),
{
    if ps.len() == 0 {
        m
    } else {
        summaries_after(m, names, ps.drop_last()).insert(
            ps.last().steam_id,
            player_view(names, ps.last()),
        )
    }
}

/// After a refresh cycle, a reported player holds the whole snapshot of its
/// last summary in the cycle.
pub proof fn lemma_player_last_summary_wins(
    m: Map<u64, PlayerView>,
    names: Map<u64, Seq<char>>,
    ps: Seq<PlayerSummary>,
    i: int,
)
    requires
        0 <= i < ps.len(),
        forall|j: int| i < j < ps.len() ==> (#[trigger] ps[j]).steam_id != ps[i].steam_id,
    ensures
        summaries_after(m, names, ps).contains_key(ps[i].steam_id),
        summaries_after(m, names, ps)[ps[i].steam_id] == player_view(names, ps[i]),
    decreases ps.len(),
{
    if i < ps.len() - 1 {
        let rest = ps.drop_last();
        assert(ps[ps.len() - 1].steam_id != ps[i].steam_id);
        assert forall|j: int| i < j < rest.len() implies (#[trigger] rest[j]).steam_id
            != rest[i].steam_id by {
            assert(rest[j] == ps[j]);
        }
        lemma_player_last_summary_wins(m, names, rest, i);
        assert(rest[i] == ps[i]);
    }
}

/// After a refresh cycle, a player the cycle did not report is as it was.
pub proof fn lemma_unreported_player_kept(
    m: Map<u64, PlayerView>,
    names: Map<u64, Seq<char>>,
    ps: Seq<PlayerSummary>,
    k: u64,
)
    requires
        forall|i: int| 0 <= i < ps.len() ==> (#[trigger] ps[i]).steam_id != k,
    ensures
        summaries_after(m, names, ps).contains_key(k) == m.contains_key(k),
        m.contains_key(k) ==> summaries_after(m, names, ps)[k] == m[k],
    decreases ps.len(),
{
    if ps.len() > 0 {
        let rest = ps.drop_last();
        assert(ps[ps.len() - 1].steam_id != k);
        assert forall|i: int| 0 <= i < rest.len() implies (#[trigger] rest[i]).steam_id != k by {
            assert(rest[i] == ps[i]);
        }
        lemma_unreported_player_kept(m, names, rest, k);
    }
}

/// After a refresh cycle, each player's snapshot is either the one it had
/// before or the whole snapshot of one summary of the cycle.
pub proof fn lemma_player_snapshots_whole(
    m: Map<u64, PlayerView>,
    names: Map<u64, Seq<char>>,
    ps: Seq<PlayerSummary>,
    k: u64,
)
    requires
        summaries_after(m, names, ps).contains_key(k),
    ensures
        (m.contains_key(k) && summaries_after(m, names, ps)[k] == m[k]) || exists|i: int|
            0 <= i < ps.len() && (#[trigger] ps[i]).steam_id == k && player_view(names, ps[i])
                == summaries_after(m, names, ps)[k],
    decreases ps.len(),
{
    if ps.len() > 0 {
        let rest = ps.drop_last();
        if ps.last().steam_id == k {
            assert(ps[ps.len() - 1].steam_id == k);
        } else {
            lemma_player_snapshots_whole(m, names, rest, k);
            if !(m.contains_key(k) && summaries_after(m, names, ps)[k] == m[k]) {
                let i = choose|i: int|
                    0 <= i < rest.len() && (#[trigger] rest[i]).steam_id == k && player_view(
                        names,
                        rest[i],
                    ) == summaries_after(m, names, rest)[k];
                assert(ps[i] == rest[i]);
            }
        }
    }
}

/// A refresh cycle that reports a player decides its snapshot alone: whatever
/// the cache held before, the player ends with the same snapshot.
pub proof fn lemma_player_refresh_forgets_prior(
    m1: Map<u64, PlayerView>,
    m2: Map<u64, PlayerView>,
    names: Map<u64, Seq<char>>,
    ps: Seq<PlayerSummary>,
    k: u64,
)
    requires
        exists|i: int| 0 <= i < ps.len() && (#[trigger] ps[i]).steam_id == k,
    ensures
        summaries_after(m1, names, ps).contains_key(k),
        summaries_after(m2, names, ps).contains_key(k),
        summaries_after(m1, names, ps)[k] == summaries_after(m2, names, ps)[k],
    decreases ps.len(),
{
    let rest = ps.drop_last();
    if ps.last().steam_id != k {
        let i = choose|i: int| 0 <= i < ps.len() && (#[trigger] ps[i]).steam_id == k;
        assert(i != ps.len() - 1);
        assert(rest[i] == ps[i]);
        lemma_player_refresh_forgets_prior(m1, m2, names, rest, k);
    }
}

/// Builds the snapshot of one player summary.
pub fn player_info(names: &GameNames, p: &PlayerSummary) -> (r: SteamUserInfo)
    ensures
        r@ == player_view(names@, *p),
{
    let game = match &p.game_id {
        Some(g) => match parse_decimal(g.as_str()) {
            Some(id) => {
                let name = match names.name_of(id) {
                    Some(n) => n.clone(),
                    None => String::from_str("unknown game"),
                };
                let url = join_text(
                    String::from_str("http://store.steampowered.com/api/appdetails?appids="),
                    decimal_text(id).as_str(),
                );
                let url = join_text(url, "&filters=basic");
                Some(SteamGameInfo { appid: id, name, info_url: url })
            },
            None => None,
        },
        None => None,
    };
    SteamUserInfo { steam_id: decimal_text(p.steam_id), persona_name: p.persona_name.clone(), game }
}

/// The latest snapshot of each player, keyed by platform id.
pub struct SteamCache {
    users: HashMap<u64, SteamUserInfo>,
}

impl View for SteamCache {
    type V = Map<u64, PlayerView>;

    closed spec fn view(&self) -> Map<u64, PlayerView> {
        self.users@.map_values(|u: SteamUserInfo| u@)
    }
}

impl SteamCache {
    /// A cache that knows no player.
    pub fn new() -> (r: SteamCache)
        ensures
            r@ == Map::<u64, PlayerView>::empty(),
    {
        let r = SteamCache { users: HashMap::new() };
        assert(r@ =~= Map::<u64, PlayerView>::empty());
        r
    }

    /// The snapshot of player `steam_id`, if one was stored.
    pub fn get_user_info(&self, steam_id: u64) -> (r: Option<&SteamUserInfo>)
        ensures
            match r {
                Some(u) => self@.contains_key(steam_id) && self@[steam_id] == u@,
                None => !self@.contains_key(steam_id),
            },
    {
        self.users.get(&steam_id)
    }

    /// Applies the outcome of one fetch of player summaries: on success each
    /// reported player's snapshot is replaced, others are kept; on failure
    /// (`None`) nothing changes.
    pub fn perform_update(&mut self, names: &GameNames, fetched: Option<&Vec<PlayerSummary>>)
        ensures
            match fetched {
                Some(ps) => final(self)@ == summaries_after(old(self)@, names@, ps@),
                None => final(self)@ == old(self)@,
            },
    {
        let players = match fetched {
            Some(ps) => ps,
            None => {
                return ;
            },
        };
        let ghost m0 = self@;
        let mut i: usize = 0;
        while i < players.len()
            invariant
                i <= players@.len(),
                self@ == summaries_after(m0, names@, players@.subrange(0, i as int)),
            decreases players@.len() - i,
        {
            let ghost pre = players@.subrange(0, i as int + 1);
            assert(pre.drop_last() =~= players@.subrange(0, i as int));
            let p = &players[i];
            let info = player_info(names, p);
            let ghost before = self.users@;
            self.users.insert(p.steam_id, info);
            assert(self@ =~= before.map_values(|u: SteamUserInfo| u@).insert(p.steam_id, info@));
            i = i + 1;
        }
        assert(players@.subrange(0, players@.len() as int) =~= players@);
    }
}

/// The platform ids of `users` that have one, in order.
pub open spec fn steam_ids(users: Seq<(String, UserConfig)>) -> Seq<u64>
    decreases users.len(),
{
    if users.len() == 0 {
        Seq::empty()
    } else {
        let rest = steam_ids(users.drop_last());
        match users.last().1.steam_id {
            Some(id) => rest.push(id),
            None => rest,
        }
    }
}

/// The working set of the platform: the ids of the users that have one.
pub fn steam_players(config: &Config) -> (r: Vec<u64>)
    ensures
        r@ == steam_ids(config.users@),
{
    let mut r: Vec<u64> = Vec::new();
    let mut i: usize = 0;
    while i < config.users.len()
        invariant
            i <= config.users@.len(),
            r@ == steam_ids(config.users@.subrange(0, i as int)),
        decreases config.users@.len() - i,
    {
        let ghost pre = config.users@.subrange(0, i as int + 1);
        assert(pre.drop_last() =~= config.users@.subrange(0, i as int));
        if let Some(id) = config.users[i].1.steam_id {
            r.push(id);
        }
        i = i + 1;
    }
    assert(config.users@.subrange(0, config.users@.len() as int) =~= config.users@);
    r
}

} // verus!

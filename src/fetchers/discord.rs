use vstd::prelude::*;

use std::collections::HashMap;

use crate::text::{copy_opt_text, decimal, decimal_text, join_text};

verus! {

broadcast use vstd::std_specs::hash::group_hash_axioms;

/// A user's coarse online status.
#[derive(Clone, Copy, PartialEq, Eq, Debug, Structural)]
pub enum TypescriptOnlineStatus {
    DoNotDisturb,
    Idle,
    Invisible,
    Offline,
    Online,
}

/// The status shown on each client surface, where the user is connected.
#[derive(Clone, Copy, PartialEq, Eq, Debug, Structural)]
pub struct ClientStatus {
    pub desktop: Option<TypescriptOnlineStatus>,
    pub mobile: Option<TypescriptOnlineStatus>,
    pub web: Option<TypescriptOnlineStatus>,
}

/// The emoji of a custom status.
#[allow(inconsistent_fields)]
#[derive(Clone, Debug, PartialEq, Eq)]
pub enum Emoji {
    /// A standard emoji, known by its name alone.
    Official { name: String },
    /// A custom emoji with its id and image address.
    Unofficial { name: String, id: u64, animated: bool, url: String },
    /// An emoji whose id and animation flag do not come together.
    Unknown { name: String, id: Option<u64>, animated: Option<bool> },
}

/// A user's custom status.
#[derive(Clone, Debug, PartialEq, Eq)]
pub struct CustomStatus {
    pub emoji: Option<Emoji>,
    pub text: Option<String>,
}

/// What the chat service shows of one user.
#[derive(Clone, Debug, PartialEq, Eq)]
pub struct DiscordUserInfo {
    pub display_name: String,
    pub status: TypescriptOnlineStatus,
    pub client_status: Option<ClientStatus>,
    pub custom_status: Option<CustomStatus>,
}

/// An emoji as the chat service reports it.
#[derive(Clone, Debug, PartialEq, Eq)]
pub struct EmojiReport {
    pub name: String,
    pub id: Option<u64>,
    pub animated: Option<bool>,
}

/// One activity of a presence.
#[derive(Clone, Debug, PartialEq, Eq)]
pub struct ActivityReport {
    /// The activity is a custom status.
    pub is_custom: bool,
    pub emoji: Option<EmojiReport>,
    /// The free text of the activity.
    pub state: Option<String>,
}

/// A presence as the chat service pushes it.
#[derive(Clone, Debug, PartialEq, Eq)]
pub struct PresenceReport {
    pub user_id: u64,
    pub status: TypescriptOnlineStatus,
    pub client_status: Option<ClientStatus>,
    pub activities: Vec<ActivityReport>,
}

/// The image address of custom emoji `id`, built from the emoji's own id so
/// that each custom emoji points at its own image.
pub open spec fn emoji_url(id: u64, animated: bool) -> Seq<char> {
    "https://cdn.discordapp.com/emojis/"@ + decimal(id as nat) + ".webp?size=160&animated="@ + (
    if animated {
        "true"@
    } else {
        "false"@
    })
}

/// An emoji with neither id nor animation flag is official; one with both is
/// custom; any other combination is kept as reported.
pub open spec fn emoji_matches(e: Emoji, r: EmojiReport) -> bool {
    match (r.id, r.animated) {
        (None, None) => e == Emoji::Official { name: r.name },
        (Some(id), Some(animated)) => match e {
            Emoji::Unofficial { name, id: eid, animated: ea, url } => name == r.name && eid == id
                && ea == animated && url@ == emoji_url(id, animated),
            _ => false,
        },
        _ => e == Emoji::Unknown { name: r.name, id: r.id, animated: r.animated },
    }
}

/// Classifies a reported emoji.
pub fn emoji_from_report(r: &EmojiReport) -> (e: Emoji)
    ensures
        emoji_matches(e, *r),
{
    match (r.id, r.animated) {
        (None, None) => Emoji::Official { name: r.name.clone() },
        (Some(id), Some(animated)) => {
            let base = String::from_str("https://cdn.discordapp.com/emojis/");
            let url = join_text(base, decimal_text(id).as_str());
            let url = join_text(url, ".webp?size=160&animated=");
            let url = join_text(url, if animated { "true" } else { "false" });
            Emoji::Unofficial { name: r.name.clone(), id, animated, url }
        },
        _ => Emoji::Unknown { name: r.name.clone(), id: r.id, animated: r.animated },
    }
}

/// The custom status that activity `a` yields.
pub open spec fn custom_status_matches(c: CustomStatus, a: ActivityReport) -> bool {
    &&& match (c.emoji, a.emoji) {
        (None, None) => true,
        (Some(e), Some(r)) => emoji_matches(e, r),
        _ => false,
    }
    &&& c.text == a.state
}

/// The position of the first custom-status activity, if any.
pub open spec fn first_custom(acts: Seq<ActivityReport>, i: int) -> bool {
    0 <= i < acts.len() && acts[i].is_custom && forall|j: int|
        0 <= j < i ==> !(#[trigger] acts[j]).is_custom
}

/// The snapshot of a presence, for the user whose display name is `name`: the
/// custom status comes from the first custom-status activity.
pub open spec fn user_info_matches(u: DiscordUserInfo, name: Seq<char>, p: PresenceReport) -> bool {
    &&& u.display_name@ == name
    &&& u.status == p.status
    &&& u.client_status == p.client_status
    &&& match u.custom_status {
        Some(c) => exists|i: int|
            first_custom(p.activities@, i) && custom_status_matches(c, p.activities@[i]),
        None => forall|i: int|
            0 <= i < p.activities@.len() ==> !(#[trigger] p.activities@[i]).is_custom,
    }
}

/// The position of the first custom-status activity of `acts`.
fn first_custom_position(acts: &Vec<ActivityReport>) -> (r: Option<usize>)
    ensures
        match r {
            Some(i) => first_custom(acts@, i as int),
            None => forall|i: int| 0 <= i < acts@.len() ==> !(#[trigger] acts@[i]).is_custom,
        },
{
    let mut i: usize = 0;
    while i < acts.len()
        invariant
            i <= acts@.len(),
            forall|j: int| 0 <= j < i ==> !(#[trigger] acts@[j]).is_custom,
        decreases acts@.len() - i,
    {
        if acts[i].is_custom {
            return Some(i);
        }
        i = i + 1;
    }
    None
}

/// Builds the snapshot of a presence for a user whose display name is known.
pub fn build_user_info(display_name: String, presence: &PresenceReport) -> (r: DiscordUserInfo)
    ensures
        user_info_matches(r, display_name@, *presence),
{
    let custom_status = match first_custom_position(&presence.activities) {
        Some(i) => {
            let a = &presence.activities[i];
            let emoji = match &a.emoji {
                Some(e) => Some(emoji_from_report(e)),
                None => None,
            };
            let text = match &a.state {
                Some(t) => Some(t.clone()),
                None => None,
            };
            let c = CustomStatus { emoji, text };
            assert(custom_status_matches(c, presence.activities@[i as int]));
            Some(c)
        },
        None => None,
    };
    DiscordUserInfo {
        display_name,
        status: presence.status,
        client_status: presence.client_status,
        custom_status,
    }
}

impl Emoji {
    /// A copy equal to `self`.
    pub fn copy(&self) -> (r: Emoji)
        ensures
            r == *self,
    {
        match self {
            Emoji::Official { name } => Emoji::Official { name: name.clone() },
            Emoji::Unofficial { name, id, animated, url } => Emoji::Unofficial {
                name: name.clone(),
                id: *id,
                animated: *animated,
                url: url.clone(),
            },
            Emoji::Unknown { name, id, animated } => Emoji::Unknown {
                name: name.clone(),
                id: *id,
                animated: *animated,
            },
        }
    }
}

impl CustomStatus {
    /// A copy equal to `self`.
    pub fn copy(&self) -> (r: CustomStatus)
        ensures
            r == *self,
    {
        CustomStatus {
            emoji: match &self.emoji {
                Some(e) => Some(e.copy()),
                None => None,
            },
            text: copy_opt_text(&self.text),
        }
    }
}

impl DiscordUserInfo {
    /// A copy equal to `self`.
    pub fn copy(&self) -> (r: DiscordUserInfo)
        ensures
            r == *self,
    {
        DiscordUserInfo {
            display_name: self.display_name.clone(),
            status: self.status,
            client_status: self.client_status,
            custom_status: match &self.custom_status {
                Some(c) => Some(c.copy()),
                None => None,
            },
        }
    }
}

/// The latest presence snapshot of each user, keyed by the chat service's user id.
pub struct DiscordCache {
    users: HashMap<u64, DiscordUserInfo>,
}

impl View for DiscordCache {
    type V = Map<u64, DiscordUserInfo>;

    closed spec fn view(&self) -> Map<u64, DiscordUserInfo> {
        self.users@
    }
}

impl DiscordCache {
    /// A cache that knows no user.
    pub fn new() -> (r: DiscordCache)
        ensures
            r@ == Map::<u64, DiscordUserInfo>::empty(),
    {
        DiscordCache { users: HashMap::new() }
    }

    /// Stores the snapshot of a user whole, replacing the one before.
    pub fn presence_update(&mut self, user_id: u64, info: DiscordUserInfo)
        ensures
            final(self)@ == old(self)@.insert(user_id, info),
    {
        self.users.insert(user_id, info);
    }

    /// The snapshot of user `user_id`, if one was stored.
    pub fn fetch_user_info(&self, user_id: u64) -> (r: Option<&DiscordUserInfo>)
        ensures
            match r {
                Some(u) => self@.contains_key(user_id) && self@[user_id] == *u,
                None => !self@.contains_key(user_id),
            },
    {
        self.users.get(&user_id)
    }
}

/// Seconds to wait before the stream is opened again after it ended.
pub const RECONNECT_BACKOFF_SECS: u64 = 30;

/// Where the long-lived presence stream stands.
#[derive(Clone, Copy, PartialEq, Eq, Debug, Structural)]
pub enum StreamState {
    /// The stream is open and pushing presences.
    Streaming,
    /// The stream ended; waiting before opening it again.
    Backoff,
}

/// What happened to the stream.
#[derive(Clone, Copy, PartialEq, Eq, Debug, Structural)]
pub enum StreamEvent {
    /// The stream ended, by error or by a fault while handling an event.
    Ended,
    /// The wait before reconnecting is over.
    BackoffElapsed,
}

/// What to do next.
#[derive(Clone, Copy, PartialEq, Eq, Debug, Structural)]
pub enum StreamAction {
    /// Open the stream.
    Start,
    /// Wait this many seconds.
    Sleep(u64),
    /// Nothing to do.
    Stay,
}

/// The supervision of the stream: an ended stream is waited on for the fixed
/// backoff and then opened again, without end; no event stops it.
pub open spec fn stream_step(s: StreamState, e: StreamEvent) -> (StreamState, StreamAction) {
    match (s, e) {
        (StreamState::Streaming, StreamEvent::Ended) => (
            StreamState::Backoff,
            StreamAction::Sleep(RECONNECT_BACKOFF_SECS),
        ),
        (StreamState::Backoff, StreamEvent::BackoffElapsed) => (
            StreamState::Streaming,
            StreamAction::Start,
        ),
        _ => (s, StreamAction::Stay),
    }
}

/// The next state of the stream supervision and the action it calls for.
pub fn run_discord_bot(state: StreamState, event: StreamEvent) -> (r: (StreamState, StreamAction))
    ensures
        r == stream_step(state, event),
{
    match (state, event) {
        (StreamState::Streaming, StreamEvent::Ended) => (
            StreamState::Backoff,
            StreamAction::Sleep(RECONNECT_BACKOFF_SECS),
        ),
        (StreamState::Backoff, StreamEvent::BackoffElapsed) => (
            StreamState::Streaming,
            StreamAction::Start,
        ),
        _ => (state, StreamAction::Stay),
    }
}

} // verus!

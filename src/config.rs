use vstd::prelude::*;

use crate::keyed::distinct_keys;
use crate::text::{copy_texts, same_text, texts_view};

verus! {

/// The process configuration: source credentials, bearer tokens and users.
#[derive(Clone, Debug, PartialEq, Eq)]
pub struct Config {
    pub discord_bot_token: Option<String>,
    pub discord_initial_search_guilds: Vec<u64>,
    pub last_fm_key: Option<String>,
    pub steam_api_key: Option<String>,
    pub bluebubbles_server: Option<String>,
    pub bluebubbles_server_password: Option<String>,
    /// Bearer tokens and the scopes they grant.
    pub auth: Vec<(String, AuthConfig)>,
    /// Users by identity key, in configuration order.
    pub users: Vec<(String, UserConfig)>,
}

impl Config {
    /// Identity keys are pairwise distinct, and so are bearer tokens.
    pub open spec fn wf(&self) -> bool {
        distinct_keys(self.users@) && distinct_keys(self.auth@)
    }

    /// Whether identity keys are pairwise distinct, and bearer tokens too.
    pub fn keys_distinct(&self) -> (r: bool)
        ensures
            r == self.wf(),
    {
        all_keys_distinct(&self.users) && all_keys_distinct(&self.auth)
    }
}

/// Whether the keys of `entries` are pairwise distinct.
pub fn all_keys_distinct<V>(entries: &Vec<(String, V)>) -> (r: bool)
    ensures
        r == distinct_keys(entries@),
{
    let n = entries.len();
    let mut i: usize = 0;
    while i < n
        invariant
            i <= n,
            n == entries@.len(),
            forall|a: int, b: int|
                0 <= a < i && 0 <= b < n && a != b ==> entries@[a].0@ != entries@[b].0@,
        decreases n - i,
    {
        let mut j: usize = 0;
        while j < n
            invariant
                i < n,
                j <= n,
                n == entries@.len(),
                forall|a: int, b: int|
                    0 <= a < i && 0 <= b < n && a != b ==> entries@[a].0@ != entries@[b].0@,
                forall|b: int| 0 <= b < j && b != i ==> entries@[i as int].0@ != entries@[b].0@,
            decreases n - j,
        {
            if j != i && entries[i].0 == entries[j].0 {
                return false;
            }
            j = j + 1;
        }
        i = i + 1;
    }
    true
}

/// One user of the directory, with the identifier it has at each source.
#[derive(Clone, Debug, PartialEq, Eq)]
pub struct UserConfig {
    pub name: String,
    pub aliases: Vec<String>,
    pub pronouns: Vec<String>,
    pub time_zone: String,
    pub domain: Option<String>,
    pub discord_id: Option<u64>,
    pub last_fm_username: Option<String>,
    pub steam_id: Option<u64>,
    pub icloud_device_id: Option<String>,
}

/// Entry `i` is the first of `s` with key `k`.
pub open spec fn first_key_at<V>(s: Seq<(String, V)>, k: Seq<char>, i: int) -> bool {
    &&& 0 <= i < s.len()
    &&& s[i].0@ == k
    &&& forall|j: int| 0 <= j < i ==> #[trigger] s[j].0@ != k
}

/// The value of the first entry of `s` with key `k`.
pub open spec fn lookup<V>(s: Seq<(String, V)>, k: Seq<char>) -> Option<V> {
    if exists|i: int| first_key_at(s, k, i) {
        Some(s[choose|i: int| first_key_at(s, k, i)].1)
    } else {
        None
    }
}

/// The first match is unique.
pub proof fn lemma_first_key_unique<V>(s: Seq<(String, V)>, k: Seq<char>, i: int)
    requires
        first_key_at(s, k, i),
    ensures
        lookup(s, k) == Some(s[i].1),
{
    let c = choose|c: int| first_key_at(s, k, c);
    assert(first_key_at(s, k, c));
    if c < i {
        assert(s[c].0@ != k);
    } else if i < c {
        assert(s[i].0@ != k);
    }
}

/// A key held by some entry is found by `lookup`.
pub proof fn lemma_some_key_found<V>(s: Seq<(String, V)>, k: Seq<char>, i: int)
    requires
        0 <= i < s.len(),
        s[i].0@ == k,
    ensures
        lookup(s, k) is Some,
    decreases i,
{
    if exists|j: int| 0 <= j < i && s[j].0@ == k {
        let j = choose|j: int| 0 <= j < i && s[j].0@ == k;
        lemma_some_key_found(s, k, j);
    } else {
        assert(first_key_at(s, k, i));
    }
}

/// `lookup` finds a value exactly for the keys that some entry holds.
pub proof fn lemma_lookup_finds_held_keys<V>(s: Seq<(String, V)>, k: Seq<char>)
    ensures
        (lookup(s, k) is Some) <==> exists|i: int| 0 <= i < s.len() && #[trigger] s[i].0@ == k,
{
    if exists|i: int| 0 <= i < s.len() && #[trigger] s[i].0@ == k {
        let i = choose|i: int| 0 <= i < s.len() && #[trigger] s[i].0@ == k;
        lemma_some_key_found(s, k, i);
    }
    if lookup(s, k) is Some {
        let i = choose|i: int| first_key_at(s, k, i);
        assert(s[i].0@ == k);
    }
}

/// The position of the first entry of `entries` with key `key`.
pub fn find_key<V>(entries: &Vec<(String, V)>, key: &str) -> (r: Option<usize>)
    ensures
        match r {
            Some(i) => first_key_at(entries@, key@, i as int) && lookup(entries@, key@) == Some(
                entries@[i as int].1,
            ),
            None => lookup(entries@, key@) == None::<V> && forall|i: int|
                0 <= i < entries@.len() ==> #[trigger] entries@[i].0@ != key@,
        },
{
    let mut i: usize = 0;
    while i < entries.len()
        invariant
            i <= entries@.len(),
            forall|j: int| 0 <= j < i ==> #[trigger] entries@[j].0@ != key@,
        decreases entries@.len() - i,
    {
        if same_text(entries[i].0.as_str(), key) {
            proof {
                lemma_first_key_unique(entries@, key@, i as int);
            }
            return Some(i);
        }
        i = i + 1;
    }
    None
}

/// The scopes granted to one bearer token.
#[derive(Clone, Debug, PartialEq, Eq)]
pub struct AuthConfig {
    pub scopes: Vec<String>,
}

/// Whether `scope` is one of `scopes`.
pub open spec fn scope_granted(scopes: Seq<Seq<char>>, scope: Seq<char>) -> bool {
    exists|i: int| 0 <= i < scopes.len() && #[trigger] scopes[i] == scope
}

/// The scopes granted to `token`: those of its first entry, or none for an
/// absent or unknown token.
pub open spec fn scopes_of(auth: Seq<(String, AuthConfig)>, token: Option<Seq<char>>) -> Seq<
    Seq<char>,
> {
    match token {
        Some(t) => match lookup(auth, t) {
            Some(a) => texts_view(a.scopes@),
            None => Seq::empty(),
        },
        None => Seq::empty(),
    }
}

/// The scopes that bearer token `bearer` grants under `config`.
pub fn scopes_from_bearer(bearer: Option<&str>, config: &Config) -> (r: Vec<String>)
    ensures
        texts_view(r@) == scopes_of(config.auth@, match bearer {
            Some(b) => Some(b@),
            None => None,
        }),
{
    match bearer {
        Some(b) => match find_key(&config.auth, b) {
            Some(i) => copy_texts(&config.auth[i].1.scopes),
            None => {
                let r: Vec<String> = Vec::new();
                assert(texts_view(r@) =~= Seq::<Seq<char>>::empty());
                r
            },
        },
        None => {
            let r: Vec<String> = Vec::new();
            assert(texts_view(r@) =~= Seq::<Seq<char>>::empty());
            r
        },
    }
}

/// Whether `scope` is among the granted `auth_scopes`.
pub fn has_scope(auth_scopes: &Vec<String>, scope: &str) -> (r: bool)
    ensures
        r == scope_granted(texts_view(auth_scopes@), scope@),
{
    let mut i: usize = 0;
    while i < auth_scopes.len()
        invariant
            i <= auth_scopes@.len(),
            forall|j: int| 0 <= j < i ==> #[trigger] texts_view(auth_scopes@)[j] != scope@,
        decreases auth_scopes@.len() - i,
    {
        if same_text(auth_scopes[i].as_str(), scope) {
            assert(texts_view(auth_scopes@)[i as int] == scope@);
            return true;
        }
        i = i + 1;
    }
    false
}

} // verus!

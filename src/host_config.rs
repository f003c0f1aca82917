use vstd::prelude::*;

use vstd::string::StrSliceExecFns;

use crate::config::{lemma_some_key_found, lookup, Config, UserConfig};
use crate::keyed::KeyedList;

verus! {

/// The user that a custom domain belongs to.
#[derive(Clone, Debug, PartialEq, Eq)]
pub struct DomainEntry {
    pub username: String,
}

/// The domain table of `users`: each user's custom domain maps to the user's
/// identity key; where two users claim one domain, the later one wins.
pub open spec fn domain_table(users: Seq<(String, UserConfig)>) -> Map<Seq<char>, Seq<char>>
    decreases users.len(),
{
    if users.len() == 0 {
        Map::empty()
    } else {
        let m = domain_table(users.drop_last());
        match users.last().1.domain {
            Some(d) => m.insert(d@, users.last().0@),
            None => m,
        }
    }
}

/// `h` up to its first colon, that is without a port.
pub open spec fn host_name(h: Seq<char>) -> Seq<char> {
    if exists|i: int| 0 <= i < h.len() && h[i] == ':' {
        h.take(
            choose|i: int|
                0 <= i < h.len() && h[i] == ':' && forall|j: int| 0 <= j < i ==> h[j] != ':',
        )
    } else {
        h
    }
}

/// `h` up to its first colon.
pub fn hostname_of(h: &str) -> (r: &str)
    ensures
        r@ == host_name(h@),
{
    let n = h.unicode_len();
    let mut i: usize = 0;
    while i < n
        invariant
            i <= n,
            n == h@.len(),
            forall|j: int| 0 <= j < i ==> h@[j] != ':',
        decreases n - i,
    {
        if h.get_char(i) == ':' {
            proof {
                let c = choose|c: int|
                    0 <= c < h@.len() && h@[c] == ':' && forall|j: int| 0 <= j < c ==> h@[j] != ':';
                if c < i {
                } else if i < c {
                    assert(h@[i as int] == ':');
                }
            }
            return h.substring_char(0, i);
        }
        i = i + 1;
    }
    assert(h@.subrange(0, n as int) =~= h@);
    h
}

/// The configuration together with the table of custom domains built from it.
pub struct HandlerConfig {
    config: Config,
    domains: KeyedList<DomainEntry>,
}

impl HandlerConfig {
    /// The configuration the table was built from.
    pub closed spec fn conf(&self) -> Config {
        self.config
    }

    /// The configuration the table was built from.
    pub fn config(&self) -> (r: &Config)
        ensures
            *r == self.conf(),
    {
        &self.config
    }
    /// The domain table, from domain to identity key.
    pub closed spec fn domains(&self) -> Map<Seq<char>, Seq<char>> {
        self.domains@.map_values(|d: DomainEntry| d.username@)
    }

    /// The domain table is the one built from the configured users.
    pub closed spec fn wf(&self) -> bool {
        &&& self.config.wf()
        &&& self.domains.wf()
        &&& self.domains() == domain_table(self.conf().users@)
    }

    /// A well-formed handler holds a directory with distinct keys and the
    /// domain table built from it.
    pub proof fn lemma_wf(&self)
        requires
            self.wf(),
        ensures
            self.conf().wf(),
            self.domains() == domain_table(self.conf().users@),
    {
    }

    /// Builds the domain table of `config`.
    pub fn new(config: Config) -> (r: HandlerConfig)
        requires
            config.wf(),
        ensures
            r.wf(),
            r.conf() == config,
            r.domains() == domain_table(config.users@),
    {
        let mut domains: KeyedList<DomainEntry> = KeyedList::new();
        assert(domains@.map_values(|d: DomainEntry| d.username@) =~= Map::<Seq<char>, Seq<char>>::empty());
        let mut i: usize = 0;
        while i < config.users.len()
            invariant
                i <= config.users@.len(),
                domains.wf(),
                domains@.map_values(|d: DomainEntry| d.username@) == domain_table(
                    config.users@.subrange(0, i as int),
                ),
            decreases config.users@.len() - i,
        {
            let ghost pre = config.users@.subrange(0, i as int + 1);
            assert(pre.drop_last() =~= config.users@.subrange(0, i as int));
            let (username, user) = (&config.users[i].0, &config.users[i].1);
            if let Some(d) = &user.domain {
                let ghost before = domains@;
                domains.insert(d.clone(), DomainEntry { username: username.clone() });
                assert(domains@.map_values(|d: DomainEntry| d.username@) =~= before.map_values(
                    |d: DomainEntry| d.username@,
                ).insert(d@, username@));
            }
            i = i + 1;
        }
        assert(config.users@.subrange(0, config.users@.len() as int) =~= config.users@);
        HandlerConfig { config, domains }
    }

    /// The identity key of the user whose custom domain is the host name of
    /// `host` (a port is ignored).
    pub fn resolve(&self, host: &str) -> (r: Option<&String>)
        requires
            self.wf(),
        ensures
            match r {
                Some(u) => self.domains().contains_key(host_name(host@)) && self.domains()[host_name(
                    host@,
                )] == u@,
                None => !self.domains().contains_key(host_name(host@)),
            },
    {
        match self.domains.get(hostname_of(host)) {
            Some(d) => Some(&d.username),
            None => None,
        }
    }
}

/// Every domain of the table belongs to a user of the directory.
pub proof fn lemma_domains_name_users(users: Seq<(String, UserConfig)>, d: Seq<char>)
    requires
        domain_table(users).contains_key(d),
    ensures
        lookup(users, domain_table(users)[d]) is Some,
    decreases users.len(),
{
    let u = domain_table(users)[d];
    let rest = users.drop_last();
    let i = if domain_table(rest).contains_key(d) && domain_table(rest)[d] == u && !(
    users.last().1.domain is Some && users.last().1.domain->Some_0@ == d) {
        lemma_domains_name_users(rest, d);
        let j = choose|j: int| crate::config::first_key_at(rest, u, j);
        j
    } else {
        users.len() - 1
    };
    assert(users[i].0@ == u);
    lemma_some_key_found(users, u, i);
}

} // verus!

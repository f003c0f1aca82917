use vstd::prelude::*;

use crate::config::Config;
use crate::routes::MinimalUser;

verus! {

/// The listing of `c`'s users, in configuration order: identity key and name.
pub open spec fn listing_matches(r: Seq<MinimalUser>, c: Config) -> bool {
    &&& r.len() == c.users@.len()
    &&& forall|i: int|
        0 <= i < r.len() ==> (#[trigger] r[i]).username@ == c.users@[i].0@ && r[i].name
            == c.users@[i].1.name
}

/// The listing of all configured users.
pub fn create_users_response(config: &Config) -> (r: Vec<MinimalUser>)
    ensures
        listing_matches(r@, *config),
{
    let mut r: Vec<MinimalUser> = Vec::new();
    let mut i: usize = 0;
    while i < config.users.len()
        invariant
            i <= config.users@.len(),
            r@.len() == i,
            forall|j: int|
                0 <= j < i ==> (#[trigger] r@[j]).username@ == config.users@[j].0@ && r@[j].name
                    == config.users@[j].1.name,
        decreases config.users@.len() - i,
    {
        r.push(
            MinimalUser {
                username: config.users[i].0.clone(),
                name: config.users[i].1.name.clone(),
            },
        );
        i = i + 1;
    }
    r
}

/// The listing depends on the directory alone: any two listings of one
/// directory hold the same users, with the same names, in the same order.
pub proof fn lemma_listing_stable(c: Config, r1: Seq<MinimalUser>, r2: Seq<MinimalUser>)
    requires
        listing_matches(r1, c),
        listing_matches(r2, c),
    ensures
        r1.len() == r2.len(),
        forall|i: int|
            0 <= i < r1.len() ==> (#[trigger] r1[i]).username@ == r2[i].username@ && r1[i].name
                == r2[i].name,
{
    assert forall|i: int| 0 <= i < r1.len() implies (#[trigger] r1[i]).username@ == r2[i].username@
        && r1[i].name == r2[i].name by {
        assert(r2[i].username@ == c.users@[i].0@);
    }
}

} // verus!

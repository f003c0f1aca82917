use vstd::prelude::*;

use crate::host_config::{host_name, lemma_domains_name_users, HandlerConfig};
use crate::routes::get_user::{answers, bearer_text, get_user, Sources, UserAggregate};

verus! {

/// `r` is the answer for a request to `host`: for a user's custom domain the
/// same answer as for that user's identity key, for any other host none.
pub open spec fn host_answers(
    r: Option<UserAggregate>,
    handler: HandlerConfig,
    src: Sources,
    host: Seq<char>,
    bearer: Option<Seq<char>>,
) -> bool {
    if handler.domains().contains_key(host_name(host)) {
        answers(r, handler.conf(), src, handler.domains()[host_name(host)], bearer)
    } else {
        r is None
    }
}

/// The aggregate of the user whose custom domain `host` is, for the caller
/// holding `bearer`: the same answer as `get_user` for that user, and `None`
/// for a host that is no user's domain.
pub fn get_host_user(handler: &HandlerConfig, src: &Sources, host: &str, bearer: Option<&str>) -> (r:
    Option<UserAggregate>)
    requires
        handler.wf(),
        src.wf(),
    ensures
        host_answers(r, *handler, *src, host@, bearer_text(bearer)),
{
    match handler.resolve(host) {
        Some(u) => get_user(handler, src, u.as_str(), bearer),
        None => None,
    }
}

/// A request to a user's custom domain is always answered with an
/// aggregate: the domain's owner is a user of the directory.
pub proof fn lemma_mapped_host_answered(
    r: Option<UserAggregate>,
    handler: HandlerConfig,
    src: Sources,
    host: Seq<char>,
    bearer: Option<Seq<char>>,
)
    requires
        handler.wf(),
        host_answers(r, handler, src, host, bearer),
        handler.domains().contains_key(host_name(host)),
    ensures
        r is Some,
{
    handler.lemma_wf();
    lemma_domains_name_users(handler.conf().users@, host_name(host));
}

} // verus!

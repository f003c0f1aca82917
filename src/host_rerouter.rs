use vstd::prelude::*;

use vstd::string::StrSliceExecFns;

use crate::host_config::{host_name, HandlerConfig};
use crate::text::{join_text, same_text};

verus! {

/// `p` without the `/api` prefix that the general host puts before every
/// route: `/api` becomes `/`, `/api/rest` becomes `/rest`, other paths stay.
pub open spec fn strip_api(p: Seq<char>) -> Seq<char> {
    if p == "/api"@ {
        "/"@
    } else if p.len() >= 5 && p.take(5) == "/api/"@ {
        p.skip(4)
    } else {
        p
    }
}

/// The path and query after the prefix is stripped.
pub open spec fn rewritten(p: Seq<char>, q: Option<Seq<char>>) -> Seq<char> {
    match q {
        Some(q) => strip_api(p) + "?"@ + q,
        None => strip_api(p),
    }
}

/// The path and query of a request once the `/api` prefix is stripped.
pub fn rewrite_uri(path: &str, query: Option<&str>) -> (r: String)
    ensures
        r@ == rewritten(path@, match query {
            Some(q) => Some(q@),
            None => None,
        }),
{
    let n = path.unicode_len();
    let stripped = if same_text(path, "/api") {
        String::from_str("/")
    } else if n >= 5 && same_text(path.substring_char(0, 5), "/api/") {
        String::from_str(path.substring_char(4, n))
    } else {
        String::from_str(path)
    };
    assert(path@.take(5) == path@.subrange(0, 5));
    assert(path@.skip(4) == path@.subrange(4, n as int));
    match query {
        Some(q) => {
            let with_mark = join_text(stripped, "?");
            join_text(with_mark, q)
        },
        None => stripped,
    }
}

/// The path and query a request should be routed with: requests to a user's
/// custom domain lose the `/api` prefix (`Some`), others are left as they
/// came (`None`).
pub fn host_rerouter(handler: &HandlerConfig, host: &str, path: &str, query: Option<&str>) -> (r:
    Option<String>)
    requires
        handler.wf(),
    ensures
        match r {
            Some(p) => handler.domains().contains_key(host_name(host@)) && p@ == rewritten(
                path@,
                match query {
                    Some(q) => Some(q@),
                    None => None,
                },
            ),
            None => !handler.domains().contains_key(host_name(host@)),
        },
{
    match handler.resolve(host) {
        Some(_) => Some(rewrite_uri(path, query)),
        None => None,
    }
}

} // verus!

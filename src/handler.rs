use vstd::prelude::*;

use crate::table::RedirectTable;

verus! {

/// HTTP status of a permanent redirect.
pub const PERMANENT_REDIRECT: u16 = 308;

/// HTTP status of an unknown resource.
pub const NOT_FOUND: u16 = 404;

/// Cache policy sent with every redirect: fresh for a day, usable stale for a
/// year while the origin errs.
pub const CACHE_POLICY: &'static str = "max-age=86400, stale-if-error=31536000";

/// Largest request body, in bytes, that the server accepts.
pub const BODY_LIMIT: usize = 1024;

/// What to answer to a request: a status, and the `Location` and
/// `Cache-Control` headers if any.
pub struct Reply {
    pub status: u16,
    pub location: Option<&'static str>,
    pub cache_control: Option<&'static str>,
}

impl Reply {
    /// The status and the `Location` header's text.
    pub open spec fn outcome(&self) -> (u16, Option<Seq<char>>) {
        (
            self.status,
            match self.location {
                Some(l) => Some(l@),
                None => None,
            },
        )
    }
}

/// Answer to `/{key}` under the mapping `m`: a permanent redirect to the
/// target of a listed key, else not found.
pub open spec fn key_reply(m: Map<Seq<char>, Seq<char>>, key: Seq<char>) -> (u16, Option<Seq<char>>) {
    if m.contains_key(key) {
        (PERMANENT_REDIRECT, Some(m[key]))
    } else {
        (NOT_FOUND, None)
    }
}

/// Answer to `/` under the mapping `m` with root key `root`: a permanent
/// redirect to the root key's target.
pub open spec fn root_reply(m: Map<Seq<char>, Seq<char>>, root: Seq<char>) -> (u16, Option<Seq<char>>) {
    (PERMANENT_REDIRECT, Some(m[root]))
}

/// A permanent redirect to `target`, with the cache policy.
fn redirect(target: &'static str) -> (r: Reply)
    ensures
        r.status == PERMANENT_REDIRECT,
        r.location == Some(target),
        r.cache_control == Some(CACHE_POLICY),
{
    Reply { status: PERMANENT_REDIRECT, location: Some(target), cache_control: Some(CACHE_POLICY) }
}

/// Answers a request for the root path `/`.
pub fn respond_root(table: &RedirectTable) -> (r: Reply)
    requires
        table.well_formed(),
    ensures
        r.outcome() == root_reply(table@, table.root_key()),
        r.status == PERMANENT_REDIRECT,
        r.location matches Some(l) && l@ == table@[table.root_key()],
        r.cache_control == Some(CACHE_POLICY),
{
    redirect(table.root_target())
}

/// Answers a request for the path `/{short}`.
pub fn respond(table: &RedirectTable, short: &str) -> (r: Reply)
    requires
        table.well_formed(),
    ensures
        r.outcome() == key_reply(table@, short@),
        table@.contains_key(short@) ==> r.status == PERMANENT_REDIRECT && (r.location matches Some(
            l,
        ) && l@ == table@[short@]) && r.cache_control == Some(CACHE_POLICY),
        !table@.contains_key(short@) ==> r.status == NOT_FOUND && r.location is None
            && r.cache_control is None,
{
    match table.lookup(short) {
        Some(target) => redirect(target),
        None => Reply { status: NOT_FOUND, location: None, cache_control: None },
    }
}

/// The root path and the explicit path of the root key get the same status
/// and the same `Location`.
pub proof fn lemma_root_path_is_root_key(table: &RedirectTable)
    requires
        table.well_formed(),
    ensures
        root_reply(table@, table.root_key()) == key_reply(table@, table.root_key()),
{
    table.lemma_root_listed();
}

} // verus!

//! Classification of request paths into the three route classes the server
//! distinguishes: the health-check endpoint, the static-asset subtree, and
//! the single-page-application fallback for everything else.

use vstd::prelude::*;
use vstd::seq_lib::*;
use vstd::string::StrSliceExecFns;

verus! {

/// The exact path of the health-check endpoint.
pub open spec fn spec_health_path() -> Seq<char> {
    "/api/healthchecker"@
}

/// The asset subtree's mount point, matched exactly.
pub open spec fn spec_asset_mount() -> Seq<char> {
    "/assets"@
}

/// The prefix that every path strictly inside the asset subtree carries.
pub open spec fn spec_asset_prefix() -> Seq<char> {
    "/assets/"@
}

/// The exact path of the health-check endpoint.
pub fn health_path() -> (r: &'static str)
    ensures
        r@ == spec_health_path(),
{
    "/api/healthchecker"
}

/// The asset subtree's mount point.
pub fn asset_mount() -> (r: &'static str)
    ensures
        r@ == spec_asset_mount(),
{
    "/assets"
}

/// The three classes of request path the server distinguishes.
#[derive(Clone, Copy, Debug, PartialEq, Eq, Structural)]
pub enum Route {
    /// The health-check endpoint, answered with a fixed JSON payload.
    Health,
    /// A path under the static-asset subtree, served from the asset root.
    Asset,
    /// Any other path, answered with the single-page application's entry
    /// document.
    Fallback,
}

/// Which route class a request path belongs to.
pub open spec fn spec_classify(path: Seq<char>) -> Route {
    if path == spec_health_path() {
        Route::Health
    } else if path == spec_asset_mount() || spec_asset_prefix().is_prefix_of(path) {
        Route::Asset
    } else {
        Route::Fallback
    }
}

/// Classifies a request path: the health-check endpoint is matched exactly,
/// the asset subtree is its mount point and everything below it, and every
/// remaining path falls back to the entry document.
pub fn classify(path: &str) -> (r: Route)
    ensures
        r == spec_classify(path@),
{
    if str_eq(path, "/api/healthchecker") {
        Route::Health
    } else if str_eq(path, "/assets") || str_has_prefix(path, "/assets/") {
        Route::Asset
    } else {
        Route::Fallback
    }
}

/// The path that the asset responder sees for a request inside the asset
/// subtree: the remainder after the mount point, or the root path for the
/// mount point itself.
pub open spec fn spec_asset_rest(path: Seq<char>) -> Seq<char> {
    if path == spec_asset_mount() {
        "/"@
    } else {
        path.subrange(spec_asset_mount().len() as int, path.len() as int)
    }
}

/// Strips the asset mount point from a path, returning the remainder that is
/// looked up under the asset root; `None` for paths outside the subtree.
pub fn asset_request_path<'a>(path: &'a str) -> (r: Option<&'a str>)
    ensures
        match r {
            Some(rest) => spec_classify(path@) == Route::Asset && rest@ == spec_asset_rest(
                path@,
            ),
            None => spec_classify(path@) != Route::Asset,
        },
{
    proof {
        reveal_strlit("/assets");
        reveal_strlit("/assets/");
        reveal_strlit("/api/healthchecker");
    }
    if str_eq(path, "/assets") {
        Some("/")
    } else if str_has_prefix(path, "/assets/") {
        proof {
            assert(path@ != spec_asset_mount());
            assert(path@.subrange(0, 8)[2] == path@[2]);
            assert(path@[2] == 's');
            assert(path@ != spec_health_path());
        }
        let mount_len = "/assets".unicode_len();
        let rest = path.substring_char(mount_len, path.unicode_len());
        Some(rest)
    } else {
        None
    }
}

/// Every path in the asset subtree — the mount point, or anything carrying
/// its prefix — is routed to the asset responder, never to the health
/// endpoint and never to the fallback.
pub proof fn lemma_asset_routing(path: Seq<char>)
    requires
        path == spec_asset_mount() || spec_asset_prefix().is_prefix_of(path),
    ensures
        spec_classify(path) == Route::Asset,
{
    reveal_strlit("/assets");
    reveal_strlit("/assets/");
    reveal_strlit("/api/healthchecker");
    if path == spec_asset_mount() {
        assert(path.len() == 7);
        assert(path != spec_health_path());
    } else {
        assert(path.subrange(0, 8)[2] == path[2]);
        assert(path[2] == 's');
        assert(path != spec_health_path());
    }
}

/// Every path that is neither the health-check endpoint nor in the asset
/// subtree is routed to the fallback, whatever it looks like: the router has
/// no further routes, so no path is left unanswered.
pub proof fn lemma_fallback_routing(path: Seq<char>)
    requires
        path != spec_health_path(),
        path != spec_asset_mount(),
        !spec_asset_prefix().is_prefix_of(path),
    ensures
        spec_classify(path) == Route::Fallback,
{
}

/// Compares two string slices character by character.
pub fn str_eq(a: &str, b: &str) -> (r: bool)
    ensures
        r == (a@ == b@),
{
    let alen = a.unicode_len();
    let blen = b.unicode_len();
    if alen != blen {
        return false;
    }
    let mut i: usize = 0;
    while i < alen
        invariant
            alen == a@.len(),
            blen == b@.len(),
            alen == blen,
            i <= alen,
            forall|j: int| 0 <= j < i ==> a@[j] == b@[j],
        decreases alen - i,
    {
        if a.get_char(i) != b.get_char(i) {
            return false;
        }
        i += 1;
    }
    proof {
        assert(a@ =~= b@);
    }
    true
}

/// Decides whether `p` is a prefix of `s`, character by character.
pub fn str_has_prefix(s: &str, p: &str) -> (r: bool)
    ensures
        r == p@.is_prefix_of(s@),
{
    let slen = s.unicode_len();
    let plen = p.unicode_len();
    if plen > slen {
        return false;
    }
    let mut i: usize = 0;
    while i < plen
        invariant
            slen == s@.len(),
            plen == p@.len(),
            plen <= slen,
            i <= plen,
            forall|j: int| 0 <= j < i ==> s@[j] == p@[j],
        decreases plen - i,
    {
        if s.get_char(i) != p.get_char(i) {
            proof {
                assert(s@.subrange(0, p@.len() as int)[i as int] != p@[i as int]);
            }
            return false;
        }
        i += 1;
    }
    proof {
        assert(s@.subrange(0, p@.len() as int) =~= p@);
    }
    true
}

} // verus!

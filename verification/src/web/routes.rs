//! Route paths: joining a path prefix with a route, the probe routes that
//! stay at the root, and the layout of the router that the server mounts.

use vstd::prelude::*;
use vstd::string::*;
use crate::configuration::schema::{Config, ServerConfig};
use crate::text::{
    lemma_trim_ends, lemma_trim_one_in_front, CharClass, chars_of, decimal, push_decimal, push_range, push_str, str_equal, string_of, trim,
    trim_bounds, trim_end,
};

verus! {

/// A path segment without its leading and trailing slashes.
pub open spec fn normalized(s: Seq<char>) -> Seq<char> {
    trim(s, CharClass::Exactly('/'))
}

/// `prefix` and `path`, each stripped of surrounding slashes, joined into one
/// absolute path.
pub open spec fn joined(prefix: Seq<char>, path: Seq<char>) -> Seq<char> {
    let p = normalized(prefix);
    let q = normalized(path);
    if p.len() == 0 {
        seq!['/'] + q
    } else if q.len() == 0 {
        seq!['/'] + p
    } else {
        seq!['/'] + p + seq!['/'] + q
    }
}

/// The probe routes, which are mounted at the root whatever the prefix.
pub open spec fn is_root_scoped(path: Seq<char>) -> bool {
    path == "/health"@ || path == "/healthz"@ || path == "/livez"@ || path == "/readyz"@ || path
        == "/status"@
}

/// Where a route is mounted under `prefix`.
pub open spec fn scoped(path: Seq<char>, prefix: Seq<char>) -> Seq<char> {
    if is_root_scoped(path) {
        path
    } else {
        joined(prefix, path)
    }
}

/// `path` without leading and trailing slashes.
pub fn normalize_path_segment(path: &str) -> (s: String)
    ensures
        s@ == normalized(path@),
{
    let v = chars_of(path);
    let (a, b) = trim_bounds(&v, 0, v.len(), CharClass::Exactly('/'));
    assert(v@.subrange(0, v.len() as int) =~= v@);
    let mut out: Vec<char> = Vec::new();
    push_range(&mut out, &v, a, b);
    string_of(&out)
}

/// Joins a prefix and a path into one absolute path, dropping the slashes
/// around each.
pub fn join_paths(prefix: &str, path: &str) -> (s: String)
    ensures
        s@ == joined(prefix@, path@),
{
    let p = normalize_path_segment(prefix);
    let q = normalize_path_segment(path);
    let mut out: Vec<char> = Vec::new();
    out.push('/');
    if p.as_str().is_empty() {
        push_str(&mut out, q.as_str());
    } else if q.as_str().is_empty() {
        push_str(&mut out, p.as_str());
    } else {
        push_str(&mut out, p.as_str());
        out.push('/');
        push_str(&mut out, q.as_str());
    }
    assert(out@ =~= joined(prefix@, path@));
    string_of(&out)
}

/// Whether `path` is one of the probe routes kept at the root.
pub fn is_root_scoped_path(path: &str) -> (b: bool)
    ensures
        b == is_root_scoped(path@),
{
    str_equal(path, "/health") || str_equal(path, "/healthz") || str_equal(path, "/livez")
        || str_equal(path, "/readyz") || str_equal(path, "/status")
}

/// Where the route `path` is mounted: probe routes at the root, every other
/// route under `prefix`.
pub fn scoped_path(path: &str, prefix: &str) -> (s: String)
    ensures
        s@ == scoped(path@, prefix@),
{
    if is_root_scoped_path(path) {
        return path.to_owned();
    }
    join_paths(prefix, path)
}

pub open spec fn is_development(cfg: Config) -> bool {
    cfg.primary.env@ == "development"@
}

/// The route that hides the authentication service's reference pages.
pub open spec fn reference_block_route(auth_path: Seq<char>) -> Seq<char> {
    trim_end(auth_path, CharClass::Exactly('/')) + "/reference/{*path}"@
}

/// Where the documentation page fetches the authentication API description.
pub open spec fn auth_openapi_url(cfg: Config) -> Seq<char> {
    "http://localhost:"@ + decimal(cfg.server.port as nat) + trim_end(
        cfg.server.path_prefix@,
        CharClass::Exactly('/'),
    ) + trim_end(cfg.auth.path_prefix@, CharClass::Exactly('/')) + "/reference/openapi.json"@
}

/// The layout of the router: where the authentication service is nested, and
/// either the route that hides its reference pages (outside development) or
/// the address of its API description for the documentation pages (in
/// development).
#[derive(Debug)]
pub struct RouterPlan {
    pub auth_path: String,
    pub reference_block_route: Option<String>,
    pub auth_openapi_url: Option<String>,
}

/// `s` without its trailing slashes, appended to `out`.
pub fn push_without_trailing_slashes(out: &mut Vec<char>, s: &str)
    ensures
        final(out)@ == old(out)@ + trim_end(s@, CharClass::Exactly('/')),
{
    let v = chars_of(s);
    let mut b: usize = v.len();
    assert(v@.subrange(0, v.len() as int) =~= v@);
    while b > 0 && v[b - 1] == '/'
        invariant
            b <= v.len(),
            v@ == s@,
            trim_end(s@, CharClass::Exactly('/')) == trim_end(v@.subrange(0, b as int), CharClass::Exactly('/')),
        decreases b,
    {
        proof {
            assert(v@.subrange(0, b as int).drop_last() =~= v@.subrange(0, b - 1));
        }
        b = b - 1;
    }
    proof {
        let t = v@.subrange(0, b as int);
        if t.len() > 0 {
            assert(t.last() == v@[b - 1]);
        }
    }
    push_range(out, &v, 0, b);
}

/// The router layout that the configuration calls for.
pub fn plan_router(cfg: &Config) -> (r: RouterPlan)
    ensures
        r.auth_path@ == joined(cfg.server.path_prefix@, cfg.auth.path_prefix@),
        is_development(*cfg) ==> r.reference_block_route is None && (r.auth_openapi_url matches Some(
            u,
        ) && u@ == auth_openapi_url(*cfg)),
        !is_development(*cfg) ==> r.auth_openapi_url is None && (r.reference_block_route matches Some(
            b,
        ) && b@ == reference_block_route(r.auth_path@)),
{
    let auth_path = join_paths(cfg.server.path_prefix.as_str(), cfg.auth.path_prefix.as_str());
    if str_equal(cfg.primary.env.as_str(), "development") {
        let mut url: Vec<char> = Vec::new();
        push_str(&mut url, "http://localhost:");
        push_decimal(&mut url, cfg.server.port as u64);
        push_without_trailing_slashes(&mut url, cfg.server.path_prefix.as_str());
        push_without_trailing_slashes(&mut url, cfg.auth.path_prefix.as_str());
        push_str(&mut url, "/reference/openapi.json");
        let u = string_of(&url);
        RouterPlan { auth_path, reference_block_route: None, auth_openapi_url: Some(u) }
    } else {
        let mut route: Vec<char> = Vec::new();
        push_without_trailing_slashes(&mut route, auth_path.as_str());
        push_str(&mut route, "/reference/{*path}");
        let b = string_of(&route);
        RouterPlan { auth_path, reference_block_route: Some(b), auth_openapi_url: None }
    }
}

/// The address the server listens on: `host:port`.
pub open spec fn listen_address_of(server: ServerConfig) -> Seq<char> {
    server.host@ + ":"@ + decimal(server.port as nat)
}

pub fn listen_address(server: &ServerConfig) -> (s: String)
    ensures
        s@ == listen_address_of(*server),
{
    let mut out: Vec<char> = Vec::new();
    push_str(&mut out, server.host.as_str());
    push_str(&mut out, ":");
    push_decimal(&mut out, server.port as u64);
    string_of(&out)
}

} // verus!

verus! {

/// Every joined path is absolute, and it ends in a slash only when it is the
/// root itself.
pub proof fn law_joined_is_absolute(prefix: Seq<char>, path: Seq<char>)
    ensures
        joined(prefix, path).len() >= 1,
        joined(prefix, path)[0] == '/',
        joined(prefix, path) == seq!['/'] || joined(prefix, path).last() != '/',
{
    lemma_trim_ends(prefix, CharClass::Exactly('/'));
    lemma_trim_ends(path, CharClass::Exactly('/'));
    let p = normalized(prefix);
    let q = normalized(path);
    if p.len() == 0 && q.len() == 0 {
        assert(joined(prefix, path) =~= seq!['/']);
    }
}

/// Joining an already joined path under an empty prefix changes nothing.
pub proof fn law_join_idempotent(prefix: Seq<char>, path: Seq<char>)
    ensures
        joined(Seq::empty(), joined(prefix, path)) == joined(prefix, path),
{
    let slash = CharClass::Exactly('/');
    lemma_trim_ends(prefix, slash);
    lemma_trim_ends(path, slash);
    let p = normalized(prefix);
    let q = normalized(path);
    let x = joined(prefix, path);
    assert(normalized(Seq::<char>::empty()) =~= Seq::<char>::empty());
    if p.len() == 0 {
        lemma_trim_one_in_front('/', q, slash);
        assert(normalized(x) == q);
    } else if q.len() == 0 {
        lemma_trim_one_in_front('/', p, slash);
        assert(normalized(x) == p);
    } else {
        let inner = p + seq!['/'] + q;
        assert(inner[0] == p[0]);
        assert(inner.last() == q.last());
        assert(x =~= seq!['/'] + inner);
        lemma_trim_one_in_front('/', inner, slash);
        assert(normalized(x) == inner);
        assert(joined(Seq::empty(), x) =~= x);
    }
}

/// The probe routes stay at the root whatever the prefix.
pub proof fn law_probe_routes_ignore_prefix(path: Seq<char>, prefix: Seq<char>)
    requires
        is_root_scoped(path),
    ensures
        scoped(path, prefix) == path,
{
}

} // verus!

//! The cross-origin resource sharing policy that the configuration calls for.

use vstd::prelude::*;
use crate::configuration::schema::ServerConfig;
use crate::text::str_equal;

verus! {

/// An HTTP method that cross-origin requests may use.
#[derive(Debug, Clone, Copy, PartialEq, Eq)]
pub enum HttpMethod {
    Get,
    Post,
    Put,
    Patch,
    Delete,
    Options,
}

/// A request header that cross-origin requests may send.
#[derive(Debug, Clone, Copy, PartialEq, Eq)]
pub enum RequestHeader {
    ContentType,
    Authorization,
    Accept,
}

/// The origins allowed to make cross-origin requests.
#[derive(Debug)]
pub enum AllowedOrigins {
    /// Any origin.
    Any,
    /// Exactly these origins, in order.
    List(Vec<String>),
}

/// The request headers allowed in cross-origin requests.
#[derive(Debug)]
pub enum AllowedHeaders {
    Any,
    List(Vec<RequestHeader>),
}

/// A complete cross-origin policy.
#[derive(Debug)]
pub struct CorsPolicy {
    pub allow_credentials: bool,
    pub origins: AllowedOrigins,
    pub methods: Vec<HttpMethod>,
    pub headers: AllowedHeaders,
}

/// A byte that a header value may hold: visible ASCII, any byte above it, or a tab.
pub open spec fn header_value_byte(b: u8) -> bool {
    (b >= 32 && b != 127) || b == 9
}

/// `s` can stand as an HTTP header value.
pub open spec fn valid_header_value(s: Seq<char>) -> bool {
    forall|i: int|
        0 <= i < vstd::utf8::encode_utf8(s).len() ==> header_value_byte(
            #[trigger] vstd::utf8::encode_utf8(s)[i],
        )
}

/// Whether `http::HeaderValue::from_str` accepts `s`: it does exactly when
/// every byte of its UTF-8 encoding is a tab, or at least a space and not DEL.
#[verifier::external_body]
fn is_valid_header_value(s: &str) -> (b: bool)
    ensures
        b == valid_header_value(s@),
{
    axum::http::HeaderValue::from_str(s).is_ok()
}

pub open spec fn strings_view(v: Seq<String>) -> Seq<Seq<char>> {
    Seq::new(v.len(), |i: int| v[i]@)
}

/// The configured origins that are valid header values, in order.
pub open spec fn usable_origins(origins: Seq<Seq<char>>) -> Seq<Seq<char>>
    decreases origins.len(),
{
    if origins.len() == 0 {
        Seq::empty()
    } else if valid_header_value(origins.last()) {
        usable_origins(origins.drop_last()).push(origins.last())
    } else {
        usable_origins(origins.drop_last())
    }
}

/// Credentials are allowed unless some configured origin is the wildcard.
pub open spec fn credentials_allowed(origins: Seq<Seq<char>>) -> bool {
    !exists|i: int| 0 <= i < origins.len() && #[trigger] origins[i] == "*"@
}

pub open spec fn policy_methods() -> Seq<HttpMethod> {
    seq![
        HttpMethod::Get,
        HttpMethod::Post,
        HttpMethod::Put,
        HttpMethod::Patch,
        HttpMethod::Delete,
        HttpMethod::Options,
    ]
}

pub open spec fn credential_headers() -> Seq<RequestHeader> {
    seq![RequestHeader::ContentType, RequestHeader::Authorization, RequestHeader::Accept]
}

/// The policy for the configured origins. With credentials, only the listed
/// origins that are valid header values and only the content-type,
/// authorization and accept headers are allowed; with the wildcard, any
/// origin and any header. The methods are the same either way.
pub fn build_cors_policy(server: &ServerConfig) -> (p: CorsPolicy)
    ensures
        p.allow_credentials == credentials_allowed(strings_view(server.cors_allowed_origins@)),
        p.methods@ == policy_methods(),
        p.allow_credentials ==> (p.origins matches AllowedOrigins::List(l) && strings_view(l@)
            == usable_origins(strings_view(server.cors_allowed_origins@))),
        p.allow_credentials ==> (p.headers matches AllowedHeaders::List(h) && h@
            == credential_headers()),
        !p.allow_credentials ==> p.origins is Any && p.headers is Any,
{
    let origins = &server.cors_allowed_origins;
    let ghost ov = strings_view(origins@);
    let mut wildcard = false;
    let mut i: usize = 0;
    while i < origins.len()
        invariant
            i <= origins.len(),
            ov == strings_view(origins@),
            wildcard == exists|j: int| 0 <= j < i && #[trigger] ov[j] == "*"@,
        decreases origins.len() - i,
    {
        if str_equal(origins[i].as_str(), "*") {
            assert(ov[i as int] == "*"@);
            wildcard = true;
        }
        i = i + 1;
    }
    let allow_credentials = !wildcard;
    let mut methods: Vec<HttpMethod> = Vec::new();
    methods.push(HttpMethod::Get);
    methods.push(HttpMethod::Post);
    methods.push(HttpMethod::Put);
    methods.push(HttpMethod::Patch);
    methods.push(HttpMethod::Delete);
    methods.push(HttpMethod::Options);
    assert(methods@ =~= policy_methods());
    if allow_credentials {
        let mut kept: Vec<String> = Vec::new();
        let mut k: usize = 0;
        while k < origins.len()
            invariant
                k <= origins.len(),
                ov == strings_view(origins@),
                strings_view(kept@) == usable_origins(ov.subrange(0, k as int)),
            decreases origins.len() - k,
        {
            proof {
                assert(ov.subrange(0, k + 1).drop_last() =~= ov.subrange(0, k as int));
                assert(ov.subrange(0, k + 1).last() == origins@[k as int]@);
            }
            if is_valid_header_value(origins[k].as_str()) {
                let ghost before = kept@;
                kept.push(origins[k].clone());
                proof {
                    assert(strings_view(kept@) =~= strings_view(before).push(origins@[k as int]@));
                }
            }
            k = k + 1;
        }
        assert(ov.subrange(0, origins.len() as int) =~= ov);
        let mut headers: Vec<RequestHeader> = Vec::new();
        headers.push(RequestHeader::ContentType);
        headers.push(RequestHeader::Authorization);
        headers.push(RequestHeader::Accept);
        assert(headers@ =~= credential_headers());
        CorsPolicy {
            allow_credentials,
            origins: AllowedOrigins::List(kept),
            methods,
            headers: AllowedHeaders::List(headers),
        }
    } else {
        CorsPolicy { allow_credentials, origins: AllowedOrigins::Any, methods, headers: AllowedHeaders::Any }
    }
}


/// Every origin a credentialed policy allows was configured and is a valid
/// header value, and every valid configured origin is allowed.
pub proof fn law_allowed_origins_are_configured(origins: Seq<Seq<char>>)
    ensures
        forall|i: int| 0 <= i < usable_origins(origins).len() ==> origins.contains(
            #[trigger] usable_origins(origins)[i],
        ) && valid_header_value(usable_origins(origins)[i]),
        forall|j: int| 0 <= j < origins.len() && valid_header_value(#[trigger] origins[j])
            ==> usable_origins(origins).contains(origins[j]),
    decreases origins.len(),
{
    if origins.len() > 0 {
        let rest = origins.drop_last();
        law_allowed_origins_are_configured(rest);
        let u = usable_origins(rest);
        assert forall|i: int| 0 <= i < usable_origins(origins).len() implies origins.contains(
            #[trigger] usable_origins(origins)[i],
        ) && valid_header_value(usable_origins(origins)[i]) by {
            if i < u.len() {
                assert(usable_origins(origins)[i] == u[i]);
                let k = choose|k: int| 0 <= k < rest.len() && rest[k] == u[i];
                assert(origins[k] == rest[k]);
            } else {
                assert(origins[origins.len() - 1] == origins.last());
            }
        }
        assert forall|j: int| 0 <= j < origins.len() && valid_header_value(#[trigger] origins[j])
            implies usable_origins(origins).contains(origins[j]) by {
            if j < origins.len() - 1 {
                assert(rest[j] == origins[j]);
                let k = choose|k: int| 0 <= k < u.len() && u[k] == rest[j];
                if valid_header_value(origins.last()) {
                    assert(usable_origins(origins)[k] == u[k]);
                }
            } else {
                assert(usable_origins(origins)[u.len() as int] == origins.last());
            }
        }
    }
}

/// The wildcard origin rules out credentials.
pub proof fn law_wildcard_denies_credentials(origins: Seq<Seq<char>>, i: int)
    requires
        0 <= i < origins.len(),
        origins[i] == "*"@,
    ensures
        !credentials_allowed(origins),
{
}

} // verus!

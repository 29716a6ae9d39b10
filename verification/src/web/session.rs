//! Finding the session token in a `Cookie` request header.

use vstd::prelude::*;
use crate::web::todo::{AppError, ErrorKind};
use crate::text::{
    CharClass, chars_of, has_prefix_at, lemma_split_on_first, lemma_split_on_single, split_on,
    starts_with, string_from_range, trim, trim_bounds, trim_start_matches, trim_start_matches_from,
};

verus! {

/// The token that the first of `prefixes` which the trimmed `piece` starts
/// with introduces, with every leading repetition of that prefix removed.
pub open spec fn token_in_piece(piece: Seq<char>, prefixes: Seq<Seq<char>>) -> Option<Seq<char>>
    decreases prefixes.len(),
{
    if prefixes.len() == 0 {
        None
    } else {
        let c = trim(piece, CharClass::WhiteSpace);
        if starts_with(c, prefixes[0]) {
            Some(trim_start_matches(c, prefixes[0]))
        } else {
            token_in_piece(piece, prefixes.drop_first())
        }
    }
}

/// The token of the first piece that carries one.
pub open spec fn first_token(pieces: Seq<Seq<char>>, prefixes: Seq<Seq<char>>) -> Option<Seq<char>>
    decreases pieces.len(),
{
    if pieces.len() == 0 {
        None
    } else if token_in_piece(pieces[0], prefixes) is Some {
        token_in_piece(pieces[0], prefixes)
    } else {
        first_token(pieces.drop_first(), prefixes)
    }
}

/// The session token of a `Cookie` header: the header is split on `;` and the
/// first cookie that starts with one of `prefixes` gives it.
pub open spec fn session_token(cookies: Seq<char>, prefixes: Seq<Seq<char>>) -> Option<Seq<char>> {
    first_token(split_on(cookies, ';'), prefixes)
}

/// The cookies the authentication middleware accepts, in order of preference.
pub open spec fn middleware_prefixes() -> Seq<Seq<char>> {
    seq!["better-auth.session-token="@, "session="@]
}

/// The cookie the authenticated-user extractor accepts.
pub open spec fn extractor_prefixes() -> Seq<Seq<char>> {
    seq!["session="@]
}

pub open spec fn prefixes_view(p: Seq<Vec<char>>) -> Seq<Seq<char>> {
    Seq::new(p.len(), |i: int| p[i]@)
}

fn token_in_range(v: &Vec<char>, lo: usize, hi: usize, prefixes: &Vec<Vec<char>>) -> (r: Option<
    String,
>)
    requires
        lo <= hi <= v.len(),
    ensures
        match r {
            Some(t) => token_in_piece(v@.subrange(lo as int, hi as int), prefixes_view(prefixes@))
                == Some(t@),
            None => token_in_piece(v@.subrange(lo as int, hi as int), prefixes_view(prefixes@)) is None,
        },
{
    let ghost piece = v@.subrange(lo as int, hi as int);
    let ghost pv = prefixes_view(prefixes@);
    let (a, b) = trim_bounds(v, lo, hi, CharClass::WhiteSpace);
    assert(pv.subrange(0, pv.len() as int) =~= pv);
    let mut j: usize = 0;
    while j < prefixes.len()
        invariant
            lo <= a <= b <= hi <= v.len(),
            piece == v@.subrange(lo as int, hi as int),
            pv == prefixes_view(prefixes@),
            v@.subrange(a as int, b as int) == trim(piece, CharClass::WhiteSpace),
            j <= prefixes.len(),
            token_in_piece(piece, pv) == token_in_piece(piece, pv.subrange(j as int, pv.len() as int)),
        decreases prefixes.len() - j,
    {
        let ghost rest = pv.subrange(j as int, pv.len() as int);
        assert(rest[0] == prefixes@[j as int]@);
        if has_prefix_at(v, a, b, &prefixes[j]) {
            let k = trim_start_matches_from(v, a, b, &prefixes[j]);
            return Some(string_from_range(v, k, b));
        }
        assert(rest.drop_first() =~= pv.subrange(j + 1, pv.len() as int));
        j = j + 1;
    }
    None
}

/// The session token of the `Cookie` header value `cookies`, taken from the
/// first cookie that starts with one of `prefixes`.
pub fn find_session_token(cookies: &str, prefixes: &Vec<Vec<char>>) -> (r: Option<String>)
    ensures
        match r {
            Some(t) => session_token(cookies@, prefixes_view(prefixes@)) == Some(t@),
            None => session_token(cookies@, prefixes_view(prefixes@)) is None,
        },
{
    let v = chars_of(cookies);
    let ghost pv = prefixes_view(prefixes@);
    let mut lo: usize = 0;
    let mut i: usize = 0;
    assert(v@.subrange(0, v.len() as int) =~= v@);
    while i < v.len()
        invariant
            v@ == cookies@,
            pv == prefixes_view(prefixes@),
            lo <= i <= v.len(),
            forall|j: int| lo <= j < i ==> v@[j] != ';',
            session_token(cookies@, pv) == first_token(
                split_on(v@.subrange(lo as int, v.len() as int), ';'),
                pv,
            ),
        decreases v.len() - i,
    {
        if v[i] == ';' {
            proof {
                let s = v@.subrange(lo as int, v.len() as int);
                lemma_split_on_first(s, ';', i - lo);
                assert(s.subrange(0, i - lo) =~= v@.subrange(lo as int, i as int));
                assert(s.subrange(i - lo + 1, s.len() as int) =~= v@.subrange(
                    i + 1,
                    v.len() as int,
                ));
                let pieces = split_on(s, ';');
                assert(pieces[0] == v@.subrange(lo as int, i as int));
                assert(pieces.drop_first() =~= split_on(v@.subrange(i + 1, v.len() as int), ';'));
            }
            let t = token_in_range(&v, lo, i, prefixes);
            if t.is_some() {
                return t;
            }
            lo = i + 1;
        }
        i = i + 1;
    }
    proof {
        let s = v@.subrange(lo as int, v.len() as int);
        lemma_split_on_single(s, ';');
        assert(split_on(s, ';').drop_first() =~= Seq::<Seq<char>>::empty());
        assert(split_on(s, ';')[0] == s);
        assert(first_token(Seq::<Seq<char>>::empty(), pv) is None);
    }
    token_in_range(&v, lo, v.len(), prefixes)
}

/// The session token the authentication middleware reads: a
/// `better-auth.session-token` cookie, else a `session` cookie, whichever
/// comes first in the header.
pub fn middleware_session_token(cookies: &str) -> (r: Option<String>)
    ensures
        match r {
            Some(t) => session_token(cookies@, middleware_prefixes()) == Some(t@),
            None => session_token(cookies@, middleware_prefixes()) is None,
        },
{
    let mut prefixes: Vec<Vec<char>> = Vec::new();
    prefixes.push(chars_of("better-auth.session-token="));
    prefixes.push(chars_of("session="));
    assert(prefixes_view(prefixes@) =~= middleware_prefixes());
    find_session_token(cookies, &prefixes)
}

/// The session token the authenticated-user extractor reads: the first
/// `session` cookie.
pub fn extractor_session_token(cookies: &str) -> (r: Option<String>)
    ensures
        match r {
            Some(t) => session_token(cookies@, extractor_prefixes()) == Some(t@),
            None => session_token(cookies@, extractor_prefixes()) is None,
        },
{
    let mut prefixes: Vec<Vec<char>> = Vec::new();
    prefixes.push(chars_of("session="));
    assert(prefixes_view(prefixes@) =~= extractor_prefixes());
    find_session_token(cookies, &prefixes)
}

/// A request made with a live `session` cookie: the server's extractor
/// yields one after the session store has confirmed the cookie's token.
#[derive(Debug, Clone, Copy)]
pub struct AuthenticatedUser;

/// The session token the authentication middleware needs: a request without a
/// `Cookie` header, or without a session cookie in it, is refused with
/// "missing session cookie" (401).
pub fn require_session_token(cookies: Option<&str>) -> (r: Result<String, AppError>)
    ensures
        match cookies {
            None => r matches Err(e) && e.kind == ErrorKind::Unauthorized && e.message@
                == "missing session cookie"@,
            Some(c) => match session_token(c@, middleware_prefixes()) {
                Some(t) => r matches Ok(s) && s@ == t,
                None => r matches Err(e) && e.kind == ErrorKind::Unauthorized && e.message@
                    == "missing session cookie"@,
            },
        },
{
    match cookies {
        None => Err(AppError::unauthorized("missing session cookie")),
        Some(c) => match middleware_session_token(c) {
            Some(t) => Ok(t),
            None => Err(AppError::unauthorized("missing session cookie")),
        },
    }
}

/// A session lookup lets the request through only when it found a live
/// session; a failed lookup or no session is "invalid or expired session" (401).
pub fn check_session<S, E>(lookup: Result<Option<S>, E>) -> (r: Result<(), AppError>)
    ensures
        r is Ok <==> (lookup matches Ok(found) && found is Some),
        r matches Err(e) ==> e.kind == ErrorKind::Unauthorized && e.message@
            == "invalid or expired session"@,
{
    match lookup {
        Ok(Some(_)) => Ok(()),
        _ => Err(AppError::unauthorized("invalid or expired session")),
    }
}

} // verus!

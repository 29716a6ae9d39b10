//! The arguments of the route and query-instrumentation attributes: which
//! HTTP method a route answers, whether it sits behind authentication, and
//! which statement and database a query span names.

use vstd::prelude::*;
use vstd::string::*;
use vstd::utf8::is_ascii_chars;
use crate::text::str_equal;
use crate::web::cors::HttpMethod;

verus! {

/// What `str::to_uppercase` gives for `s`: its Unicode uppercase.
pub uninterp spec fn uppercase(s: Seq<char>) -> Seq<char>;

/// The ASCII uppercase of `c`: `a` to `z` become `A` to `Z`, other
/// characters stay as they are.
pub open spec fn ascii_upper(c: char) -> char {
    if 'a' <= c && c <= 'z' {
        ((c as u32) - 32) as char
    } else {
        c
    }
}

/// `str::to_uppercase` of std. The mapping is Unicode's, which a few lines
/// cannot state, so the contract names the result; on ASCII text, where
/// Unicode maps `a` to `z` onto `A` to `Z` and leaves every other character,
/// it states the result.
#[verifier::external_body]
fn to_uppercase(s: &str) -> (u: String)
    ensures
        u@ == uppercase(s@),
        is_ascii_chars(s@) ==> u@ == s@.map_values(|c: char| ascii_upper(c)),
{
    s.to_uppercase()
}

/// The method that an uppercase method name stands for, if any.
pub open spec fn method_named(name: Seq<char>) -> Option<HttpMethod> {
    if name == "GET"@ {
        Some(HttpMethod::Get)
    } else if name == "POST"@ {
        Some(HttpMethod::Post)
    } else if name == "PUT"@ {
        Some(HttpMethod::Put)
    } else if name == "PATCH"@ {
        Some(HttpMethod::Patch)
    } else if name == "DELETE"@ {
        Some(HttpMethod::Delete)
    } else {
        None
    }
}

/// Whether `r` is what a route's method name resolves to, given its
/// uppercase form: the method, or the refusal naming the five accepted ones.
pub open spec fn resolves_method(upper: Seq<char>, r: Result<HttpMethod, String>) -> bool {
    match r {
        Ok(m) => method_named(upper) == Some(m),
        Err(e) => method_named(upper) is None
            && e@ == "route method must be one of GET, POST, PUT, PATCH, DELETE"@,
    }
}

/// The method that an already uppercased method name stands for.
pub fn method_from_uppercase(upper: &str) -> (r: Result<HttpMethod, String>)
    ensures
        resolves_method(upper@, r),
{
    proof {
        reveal_strlit("GET");
        reveal_strlit("POST");
        reveal_strlit("PUT");
        reveal_strlit("PATCH");
        reveal_strlit("DELETE");
    }
    if str_equal(upper, "GET") {
        Ok(HttpMethod::Get)
    } else if str_equal(upper, "POST") {
        Ok(HttpMethod::Post)
    } else if str_equal(upper, "PUT") {
        Ok(HttpMethod::Put)
    } else if str_equal(upper, "PATCH") {
        Ok(HttpMethod::Patch)
    } else if str_equal(upper, "DELETE") {
        Ok(HttpMethod::Delete)
    } else {
        Err("route method must be one of GET, POST, PUT, PATCH, DELETE".to_owned())
    }
}

/// The method a route attribute names, in any letter case.
pub fn route_method(name: &str) -> (r: Result<HttpMethod, String>)
    ensures
        resolves_method(uppercase(name@), r),
        is_ascii_chars(name@) ==> resolves_method(name@.map_values(|c: char| ascii_upper(c)), r),
{
    let upper = to_uppercase(name);
    method_from_uppercase(upper.as_str())
}

/// A route is protected when its attribute ends with the word `protected`.
pub fn route_protected(flag: Option<&str>) -> (b: bool)
    ensures
        b == (flag matches Some(f) && f@ == "protected"@),
{
    match flag {
        Some(f) => str_equal(f, "protected"),
        None => false,
    }
}

/// The arguments of the query-instrumentation attribute.
#[derive(Debug)]
pub struct DbArgs {
    /// The statement kind the span records.
    pub statement: String,
    /// The database system the span names, if given.
    pub db: Option<String>,
}

/// The keys the query-instrumentation attribute takes.
pub open spec fn is_db_key(key: Seq<char>) -> bool {
    key == "statement"@ || key == "db"@
}

/// The value that the last pair with `key` gives, if any pair has it.
pub open spec fn last_value(pairs: Seq<(String, String)>, key: Seq<char>) -> Option<Seq<char>>
    decreases pairs.len(),
{
    if pairs.len() == 0 {
        None
    } else if pairs.last().0@ == key {
        Some(pairs.last().1@)
    } else {
        last_value(pairs.drop_last(), key)
    }
}

/// Some pair has a key that the attribute does not take.
pub open spec fn has_unknown_key(pairs: Seq<(String, String)>) -> bool {
    exists|i: int| 0 <= i < pairs.len() && !is_db_key(#[trigger] pairs[i].0@)
}

impl DbArgs {
    /// Reads the attribute's `key = "value"` pairs in order; a later value
    /// of a key replaces an earlier one. A key other than `statement` or
    /// `db` is refused, and so is a list without `statement`.
    pub fn parse(pairs: &Vec<(String, String)>) -> (r: Result<DbArgs, String>)
        ensures
            match r {
                Ok(a) => !has_unknown_key(pairs@) && last_value(pairs@, "statement"@) == Some(
                    a.statement@,
                ) && match a.db {
                    Some(d) => last_value(pairs@, "db"@) == Some(d@),
                    None => last_value(pairs@, "db"@) is None,
                },
                Err(e) => if has_unknown_key(pairs@) {
                    e@ == "unsupported argument; expected `statement` or `db`"@
                } else {
                    last_value(pairs@, "statement"@) is None
                        && e@ == "`statement` is required for #[instrument_db]"@
                },
            },
    {
        proof {
            reveal_strlit("statement");
            reveal_strlit("db");
        }
        let mut statement: Option<String> = None;
        let mut db: Option<String> = None;
        let mut i: usize = 0;
        while i < pairs.len()
            invariant
                i <= pairs.len(),
                forall|j: int| 0 <= j < i ==> is_db_key(#[trigger] pairs@[j].0@),
                match statement {
                    Some(s) => last_value(pairs@.take(i as int), "statement"@) == Some(s@),
                    None => last_value(pairs@.take(i as int), "statement"@) is None,
                },
                match db {
                    Some(d) => last_value(pairs@.take(i as int), "db"@) == Some(d@),
                    None => last_value(pairs@.take(i as int), "db"@) is None,
                },
            decreases pairs.len() - i,
        {
            let key = pairs[i].0.as_str();
            assert(pairs@.take(i + 1).drop_last() =~= pairs@.take(i as int));
            assert(pairs@.take(i + 1).last() == pairs@[i as int]);
            proof {
                reveal_strlit("statement");
                reveal_strlit("db");
            }
            if str_equal(key, "statement") {
                statement = Some(pairs[i].1.clone());
                assert(key@ == pairs@[i as int].0@);
                assert(key@.len() == 9);
                assert(pairs@.take(i + 1).last().0@ != "db"@);
            } else if str_equal(key, "db") {
                let value = pairs[i].1.clone();
                assert(value@ == pairs@.take(i + 1).last().1@);
                db = Some(value);
            } else {
                proof {
                    assert(!is_db_key(pairs@[i as int].0@));
                }
                return Err("unsupported argument; expected `statement` or `db`".to_owned());
            }
            i = i + 1;
        }
        assert(pairs@.take(i as int) =~= pairs@);
        match statement {
            Some(s) => Ok(DbArgs { statement: s, db }),
            None => Err("`statement` is required for #[instrument_db]".to_owned()),
        }
    }
}

} // verus!

//! The documentation page and the merging of API schema descriptions.

use vstd::prelude::*;
use crate::configuration::schema::Config;
use crate::text::{CharClass, decimal, push_decimal, push_str, str_equal, string_of, trim_end};
use crate::web::routes::push_without_trailing_slashes;

verus! {

/// The local origin the documented APIs are served from.
pub open spec fn origin_of(cfg: Config) -> Seq<char> {
    "http://localhost:"@ + decimal(cfg.server.port as nat)
}

/// The application API is served under the server's path prefix.
pub open spec fn app_base_url(cfg: Config) -> Seq<char> {
    origin_of(cfg) + trim_end(cfg.server.path_prefix@, CharClass::Exactly('/'))
}

/// The system API is served at the root.
pub open spec fn system_base_url(cfg: Config) -> Seq<char> {
    origin_of(cfg)
}

/// The authentication API is served under both prefixes.
pub open spec fn auth_base_url(cfg: Config) -> Seq<char> {
    app_base_url(cfg) + cfg.auth.path_prefix@
}

/// The documentation page: three API sources, the first two described inline
/// by `app_spec` and `system_spec`, the third fetched from the merged
/// authentication description, each with the address it is served at.
pub open spec fn docs_page(cfg: Config, app_spec: Seq<char>, system_spec: Seq<char>) -> Seq<char> {
    "<!doctype html>\n<html>\n  <head>\n    <title>API Reference</title>\n    <meta charset=\"utf-8\" />\n    <meta name=\"viewport\" content=\"width=device-width, initial-scale=1\" />\n  </head>\n  <body>\n    <div id=\"app\"></div>\n    <script src=\"https://cdn.jsdelivr.net/npm/@scalar/api-reference\"></script>\n    <script>\n      Scalar.createApiReference('#app', {\n        theme: 'default',\n        sources: [\n          { \n            title: 'App API', content: "@ + app_spec + ",\n            servers: [{ url: '"@ + app_base_url(cfg) + "' }]\n          },\n          { \n            title: 'System API', content: "@ + system_spec + ",\n            servers: [{ url: '"@
        + system_base_url(cfg) + "' }]\n          },\n          {\n            title: 'Auth API',\n            url: '/docs/auth-openapi.json',\n            servers: [{ url: '"@ + auth_base_url(cfg) + "' }]\n          }\n        ]\n      });\n    </script>\n  </body>\n</html>"@
}

/// The documentation page for the given inline API descriptions.
pub fn build_docs_html(cfg: &Config, app_spec: &str, system_spec: &str) -> (html: String)
    ensures
        html@ == docs_page(*cfg, app_spec@, system_spec@),
{
    let mut origin: Vec<char> = Vec::new();
    push_str(&mut origin, "http://localhost:");
    push_decimal(&mut origin, cfg.server.port as u64);
    let mut out: Vec<char> = Vec::new();
    push_str(&mut out, "<!doctype html>\n<html>\n  <head>\n    <title>API Reference</title>\n    <meta charset=\"utf-8\" />\n    <meta name=\"viewport\" content=\"width=device-width, initial-scale=1\" />\n  </head>\n  <body>\n    <div id=\"app\"></div>\n    <script src=\"https://cdn.jsdelivr.net/npm/@scalar/api-reference\"></script>\n    <script>\n      Scalar.createApiReference('#app', {\n        theme: 'default',\n        sources: [\n          { \n            title: 'App API', content: ");
    push_str(&mut out, app_spec);
    push_str(&mut out, ",\n            servers: [{ url: '");
    out.append(&mut origin.clone());
    push_without_trailing_slashes(&mut out, cfg.server.path_prefix.as_str());
    push_str(&mut out, "' }]\n          },\n          { \n            title: 'System API', content: ");
    push_str(&mut out, system_spec);
    push_str(&mut out, ",\n            servers: [{ url: '");
    out.append(&mut origin.clone());
    push_str(&mut out, "' }]\n          },\n          {\n            title: 'Auth API',\n            url: '/docs/auth-openapi.json',\n            servers: [{ url: '");
    out.append(&mut origin.clone());
    push_without_trailing_slashes(&mut out, cfg.server.path_prefix.as_str());
    push_str(&mut out, cfg.auth.path_prefix.as_str());
    push_str(&mut out, "' }]\n          }\n        ]\n      });\n    </script>\n  </body>\n</html>");
    assert(out@ =~= docs_page(*cfg, app_spec@, system_spec@));
    string_of(&out)
}


pub open spec fn keys_view(v: Seq<String>) -> Seq<Seq<char>> {
    Seq::new(v.len(), |i: int| v[i]@)
}

/// The schema names after merging `incoming` into `existing`: each incoming
/// name not present yet is appended, in order; names present keep their place.
pub open spec fn merge_keys(existing: Seq<Seq<char>>, incoming: Seq<Seq<char>>) -> Seq<Seq<char>>
    decreases incoming.len(),
{
    if incoming.len() == 0 {
        existing
    } else {
        let m = merge_keys(existing, incoming.drop_last());
        if m.contains(incoming.last()) {
            m
        } else {
            m.push(incoming.last())
        }
    }
}

/// The incoming names that `idx` selects, in order.
pub open spec fn selected(incoming: Seq<Seq<char>>, idx: Seq<usize>) -> Seq<Seq<char>> {
    Seq::new(idx.len(), |k: int| incoming[idx[k] as int])
}

fn contains_key(keys: &Vec<String>, key: &str) -> (b: bool)
    ensures
        b == keys_view(keys@).contains(key@),
{
    let mut i: usize = 0;
    while i < keys.len()
        invariant
            i <= keys.len(),
            forall|j: int| 0 <= j < i ==> keys@[j]@ != key@,
        decreases keys.len() - i,
    {
        if str_equal(keys[i].as_str(), key) {
            assert(keys_view(keys@)[i as int] == key@);
            return true;
        }
        i = i + 1;
    }
    proof {
        if keys_view(keys@).contains(key@) {
            let k = choose|k: int| 0 <= k < keys@.len() && keys_view(keys@)[k] == key@;
            assert(keys@[k]@ == key@);
        }
    }
    false
}

/// Which of the `incoming` schemas to add to a description that already has
/// the `existing` ones: the indices, in increasing order, of the incoming
/// names that are neither present nor repeated from an earlier incoming name.
pub fn schema_keys_to_add(existing: &Vec<String>, incoming: &Vec<String>) -> (idx: Vec<usize>)
    ensures
        keys_view(existing@) + selected(keys_view(incoming@), idx@) == merge_keys(
            keys_view(existing@),
            keys_view(incoming@),
        ),
        forall|k: int| 0 <= k < idx@.len() ==> idx@[k] < incoming@.len(),
        forall|k: int, l: int| 0 <= k < l < idx@.len() ==> idx@[k] < idx@[l],
{
    let ghost ev = keys_view(existing@);
    let ghost iv = keys_view(incoming@);
    let mut merged: Vec<String> = existing.clone();
    let mut idx: Vec<usize> = Vec::new();
    let mut i: usize = 0;
    assert(keys_view(merged@) =~= ev);
    assert(iv.subrange(0, 0) =~= Seq::<Seq<char>>::empty());
    assert(ev + selected(iv, idx@) =~= ev);
    while i < incoming.len()
        invariant
            i <= incoming.len(),
            ev == keys_view(existing@),
            iv == keys_view(incoming@),
            keys_view(merged@) == merge_keys(ev, iv.subrange(0, i as int)),
            ev + selected(iv, idx@) == keys_view(merged@),
            forall|k: int| 0 <= k < idx@.len() ==> idx@[k] < i,
            forall|k: int, l: int| 0 <= k < l < idx@.len() ==> idx@[k] < idx@[l],
        decreases incoming.len() - i,
    {
        proof {
            assert(iv.subrange(0, i + 1).drop_last() =~= iv.subrange(0, i as int));
            assert(iv.subrange(0, i + 1).last() == incoming@[i as int]@);
        }
        if !contains_key(&merged, incoming[i].as_str()) {
            let ghost before_m = merged@;
            let ghost before_i = idx@;
            merged.push(incoming[i].clone());
            idx.push(i);
            proof {
                assert(keys_view(merged@) =~= keys_view(before_m).push(incoming@[i as int]@));
                assert(selected(iv, idx@) =~= selected(iv, before_i).push(iv[i as int]));
                assert(ev + selected(iv, idx@) =~= (ev + selected(iv, before_i)).push(iv[i as int]));
            }
        }
        i = i + 1;
    }
    assert(iv.subrange(0, incoming.len() as int) =~= iv);
    idx
}

/// Merging never drops or moves a schema already present, and every incoming
/// schema name ends up present.
pub proof fn law_merge_keeps_existing(existing: Seq<Seq<char>>, incoming: Seq<Seq<char>>)
    ensures
        merge_keys(existing, incoming).len() >= existing.len(),
        merge_keys(existing, incoming).subrange(0, existing.len() as int) == existing,
        forall|i: int| 0 <= i < incoming.len() ==> merge_keys(existing, incoming).contains(
            #[trigger] incoming[i],
        ),
    decreases incoming.len(),
{
    if incoming.len() > 0 {
        let rest = incoming.drop_last();
        law_merge_keeps_existing(existing, rest);
        let m = merge_keys(existing, rest);
        assert forall|i: int| 0 <= i < incoming.len() implies merge_keys(existing, incoming).contains(
            #[trigger] incoming[i],
        ) by {
            if i < incoming.len() - 1 {
                assert(rest[i] == incoming[i]);
                assert(m.contains(rest[i]));
                if !m.contains(incoming.last()) {
                    let j = choose|j: int| 0 <= j < m.len() && m[j] == rest[i];
                    assert(m.push(incoming.last())[j] == incoming[i]);
                }
            } else if !m.contains(incoming.last()) {
                assert(m.push(incoming.last())[m.len() as int] == incoming[i]);
            }
        }
        if !m.contains(incoming.last()) {
            assert(m.push(incoming.last()).subrange(0, existing.len() as int) =~= m.subrange(
                0,
                existing.len() as int,
            ));
        }
    } else {
        assert(existing.subrange(0, existing.len() as int) =~= existing);
    }
}

/// A JSON value; an object keeps its members in order.
#[derive(Debug, PartialEq)]
pub enum Json {
    Null,
    Bool(bool),
    /// A number in its JSON text.
    Number(String),
    Str(String),
    Array(Vec<Json>),
    Object(Vec<(String, Json)>),
}

/// The names of an object's members, in order.
pub open spec fn member_names(members: Seq<(String, Json)>) -> Seq<Seq<char>> {
    members.map_values(|m: (String, Json)| m.0@)
}

/// Member `i` is the first one named `name`.
pub open spec fn is_first_member(members: Seq<(String, Json)>, name: Seq<char>, i: int) -> bool {
    &&& 0 <= i < members.len()
    &&& members[i].0@ == name
    &&& forall|j: int| 0 <= j < i ==> members[j].0@ != name
}

/// Where the first member named `name` is, if there is one.
pub open spec fn first_member(members: Seq<(String, Json)>, name: Seq<char>) -> Option<int> {
    if exists|i: int| is_first_member(members, name, i) {
        Some(choose|i: int| is_first_member(members, name, i))
    } else {
        None
    }
}

/// The schemas of `app` to append to the `existing` ones: each whose name is
/// neither present nor taken by an earlier schema of `app`, in order.
pub open spec fn missing_schemas(existing: Seq<(String, Json)>, app: Seq<(String, Json)>) -> Seq<(String, Json)>
    decreases app.len(),
{
    if app.len() == 0 {
        Seq::empty()
    } else {
        let earlier = missing_schemas(existing, app.drop_last());
        if member_names(existing + earlier).contains(app.last().0@) {
            earlier
        } else {
            earlier.push(app.last())
        }
    }
}

/// The schema names after appending the missing schemas are those that
/// `merge_keys` gives, so what it keeps holds of the merged description.
pub proof fn law_missing_schemas_follow_merge_keys(existing: Seq<(String, Json)>, app: Seq<(String, Json)>)
    ensures
        member_names(existing + missing_schemas(existing, app)) == merge_keys(
            member_names(existing),
            member_names(app),
        ),
    decreases app.len(),
{
    if app.len() == 0 {
        assert(existing + Seq::<(String, Json)>::empty() =~= existing);
    } else {
        let earlier = missing_schemas(existing, app.drop_last());
        law_missing_schemas_follow_merge_keys(existing, app.drop_last());
        assert(member_names(app.drop_last()) =~= member_names(app).drop_last());
        assert(member_names(app).last() == app.last().0@);
        assert((existing + earlier).push(app.last()) =~= existing + earlier.push(app.last()));
        assert(member_names((existing + earlier).push(app.last())) =~= member_names(existing
            + earlier).push(app.last().0@));
    }
}

/// `after` is `before` with only the value of member `i` changed.
pub open spec fn replaced_at(before: Seq<(String, Json)>, after: Seq<(String, Json)>, i: int) -> bool {
    &&& after.len() == before.len()
    &&& after[i].0 == before[i].0
    &&& forall|j: int| 0 <= j < before.len() && j != i ==> after[j] == before[j]
}

/// `out` is the members of a `components` object with the application's
/// schemas merged in: a missing `schemas` object is appended holding them;
/// an existing `schemas` object gets those it lacks appended; a `schemas`
/// member that is not an object stays as it is.
pub open spec fn components_merged(
    comps: Seq<(String, Json)>,
    app: Seq<(String, Json)>,
    out: Seq<(String, Json)>,
) -> bool {
    match first_member(comps, "schemas"@) {
        None => {
            &&& out.len() == comps.len() + 1
            &&& out.drop_last() == comps
            &&& out.last().0@ == "schemas"@
            &&& (out.last().1 matches Json::Object(s) && s@ == missing_schemas(Seq::empty(), app))
        },
        Some(i) => replaced_at(comps, out, i) && match comps[i].1 {
            Json::Object(s) => (out[i].1 matches Json::Object(o) && o@ == s@ + missing_schemas(s@, app)),
            _ => out[i].1 == comps[i].1,
        },
    }
}

/// `out` is the API description `spec` with the application's schemas
/// merged into `components.schemas`: a missing `components` object is
/// appended with a `schemas` object holding them; a `components` member that
/// is not an object, or a description that is not an object, stays as it is.
pub open spec fn merged_with_app_schemas(spec: Json, app: Seq<(String, Json)>, out: Json) -> bool {
    match spec {
        Json::Object(top) => (out matches Json::Object(o) && match first_member(top@, "components"@) {
            None => {
                &&& o@.len() == top@.len() + 1
                &&& o@.drop_last() == top@
                &&& o@.last().0@ == "components"@
                &&& (o@.last().1 matches Json::Object(c) && c@.len() == 1 && c@[0].0@ == "schemas"@ && (
                c@[0].1 matches Json::Object(s) && s@ == missing_schemas(Seq::empty(), app)))
            },
            Some(i) => replaced_at(top@, o@, i) && match top@[i].1 {
                Json::Object(c) => (o@[i].1 matches Json::Object(oc) && components_merged(c@, app, oc@)),
                _ => o@[i].1 == top@[i].1,
            },
        }),
        _ => out == spec,
    }
}

/// The position of the first member named `name`.
fn first_member_index(members: &Vec<(String, Json)>, name: &str) -> (r: Option<usize>)
    ensures
        match r {
            Some(i) => first_member(members@, name@) == Some(i as int),
            None => first_member(members@, name@) is None,
        },
{
    let mut i: usize = 0;
    while i < members.len()
        invariant
            i <= members.len(),
            forall|j: int| 0 <= j < i ==> members@[j].0@ != name@,
        decreases members.len() - i,
    {
        if str_equal(members[i].0.as_str(), name) {
            proof {
                assert(is_first_member(members@, name@, i as int));
                let c = choose|c: int| is_first_member(members@, name@, c);
                if c < i {
                    assert(members@[c].0@ != name@);
                } else if c > i {
                    assert(members@[i as int].0@ != name@);
                }
            }
            return Some(i);
        }
        i = i + 1;
    }
    proof {
        if exists|c: int| is_first_member(members@, name@, c) {
            let c = choose|c: int| is_first_member(members@, name@, c);
            assert(members@[c].0@ != name@);
        }
    }
    None
}

/// Whether some member is named `name`.
fn has_member(members: &Vec<(String, Json)>, name: &str) -> (b: bool)
    ensures
        b == member_names(members@).contains(name@),
{
    let mut i: usize = 0;
    while i < members.len()
        invariant
            i <= members.len(),
            forall|j: int| 0 <= j < i ==> members@[j].0@ != name@,
        decreases members.len() - i,
    {
        if str_equal(members[i].0.as_str(), name) {
            assert(member_names(members@)[i as int] == name@);
            return true;
        }
        i = i + 1;
    }
    proof {
        if member_names(members@).contains(name@) {
            let k = choose|k: int| 0 <= k < member_names(members@).len() && member_names(members@)[k] == name@;
            assert(members@[k].0@ == name@);
        }
    }
    false
}

/// `existing` with the schemas of `app` that it lacks appended.
fn append_missing_schemas(existing: Vec<(String, Json)>, app: Vec<(String, Json)>) -> (r: Vec<(String, Json)>)
    ensures
        r@ == existing@ + missing_schemas(existing@, app@),
{
    let ghost e0 = existing@;
    let ghost a0 = app@;
    assert(a0.len() <= usize::MAX) by {
        assert(app.len() == a0.len());
    }
    let mut out = existing;
    let mut rest = app;
    let mut i: usize = 0;
    assert(a0.take(0) =~= Seq::<(String, Json)>::empty());
    assert(out@ =~= e0 + missing_schemas(e0, a0.take(0)));
    assert(rest@ =~= a0.skip(0));
    while rest.len() > 0
        invariant
            i <= a0.len() <= usize::MAX,
            rest@ == a0.skip(i as int),
            out@ == e0 + missing_schemas(e0, a0.take(i as int)),
        decreases rest.len(),
    {
        let item = rest.remove(0);
        proof {
            assert(a0.take(i + 1).drop_last() =~= a0.take(i as int));
            assert(a0.take(i + 1).last() == item);
            assert(rest@ =~= a0.skip(i + 1));
        }
        if !has_member(&out, item.0.as_str()) {
            out.push(item);
            assert(out@ =~= e0 + missing_schemas(e0, a0.take(i + 1)));
        }
        i = i + 1;
    }
    assert(a0.take(i as int) =~= a0);
    out
}

/// The members of a `components` object with the application's schemas
/// merged into its `schemas` object.
fn merge_into_components(comps: Vec<(String, Json)>, app: Vec<(String, Json)>) -> (r: Vec<(String, Json)>)
    ensures
        components_merged(comps@, app@, r@),
{
    let ghost c0 = comps@;
    let mut comps = comps;
    match first_member_index(&comps, "schemas") {
        None => {
            let schemas = append_missing_schemas(Vec::new(), app);
            assert(schemas@ =~= missing_schemas(Seq::empty(), app@));
            comps.push(("schemas".to_owned(), Json::Object(schemas)));
            assert(comps@.drop_last() =~= c0);
            comps
        },
        Some(si) => {
            let (sk, sv) = comps.remove(si);
            let merged = match sv {
                Json::Object(schemas) => Json::Object(append_missing_schemas(schemas, app)),
                other => other,
            };
            comps.insert(si, (sk, merged));
            assert(replaced_at(c0, comps@, si as int));
            comps
        },
    }
}

/// The authentication API description `spec` with the application's schemas
/// merged in, as the documentation page serves it.
pub fn merge_auth_spec(spec: Json, app: Vec<(String, Json)>) -> (r: Json)
    ensures
        merged_with_app_schemas(spec, app@, r),
{
    match spec {
        Json::Object(top) => {
            let ghost t0 = top@;
            let mut top = top;
            match first_member_index(&top, "components") {
                None => {
                    let schemas = append_missing_schemas(Vec::new(), app);
                    assert(schemas@ =~= missing_schemas(Seq::empty(), app@));
                    let mut comps: Vec<(String, Json)> = Vec::new();
                    comps.push(("schemas".to_owned(), Json::Object(schemas)));
                    top.push(("components".to_owned(), Json::Object(comps)));
                    assert(top@.drop_last() =~= t0);
                    proof {
                        reveal_strlit("schemas");
                        reveal_strlit("components");
                    }
                    Json::Object(top)
                },
                Some(ci) => {
                    let (ck, cv) = top.remove(ci);
                    let merged = match cv {
                        Json::Object(comps) => Json::Object(merge_into_components(comps, app)),
                        other => other,
                    };
                    top.insert(ci, (ck, merged));
                    assert(replaced_at(t0, top@, ci as int));
                    Json::Object(top)
                },
            }
        },
        other => other,
    }
}

} // verus!

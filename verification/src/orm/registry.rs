//! The registry of schema fields: the fields every entity must declare and
//! the fields that each optional schema plugin contributes.

use vstd::prelude::*;
use vstd::string::*;
use crate::text::str_equal;

verus! {

/// One field of an entity schema.
#[derive(Clone, Copy, Debug)]
pub struct FieldDef {
    pub name: &'static str,
    pub ty: &'static str,
    pub is_primary_key: bool,
    pub column_name: Option<&'static str>,
}

/// An optional schema plugin and the fields it adds.
#[derive(Clone, Debug)]
pub struct AppSchema {
    pub name: &'static str,
    pub fields: Vec<FieldDef>,
}

pub open spec fn field_names(fields: Seq<FieldDef>) -> Seq<Seq<char>> {
    Seq::new(fields.len(), |i: int| fields[i].name@)
}

/// The names of the plugin fields of `schemas`, plugin by plugin.
pub open spec fn plugin_field_names(schemas: Seq<AppSchema>) -> Seq<Seq<char>>
    decreases schemas.len(),
{
    if schemas.len() == 0 {
        Seq::empty()
    } else {
        plugin_field_names(schemas.drop_last()) + field_names(schemas.last().fields@)
    }
}

/// The fields every entity declares, in order.
pub open spec fn required_names() -> Seq<Seq<char>> {
    seq!["id"@, "created_at"@, "updated_at"@]
}

/// The fields the plugins contribute, in order.
pub open spec fn schema_names() -> Seq<Seq<char>> {
    seq!["deleted_at"@, "metadata"@, "slug"@]
}

pub fn plain_field(name: &'static str, ty: &'static str) -> (f: FieldDef)
    ensures
        f.name == name,
        f.ty == ty,
        !f.is_primary_key,
        f.column_name is None,
{
    FieldDef { name, ty, is_primary_key: false, column_name: None }
}

/// The fields every entity must declare: the primary key and both timestamps.
pub fn entity_required_fields() -> (v: Vec<FieldDef>)
    ensures
        field_names(v@) == required_names(),
        v@.len() == 3,
        v@[0].is_primary_key && v@[0].ty@ == "Uuid"@,
        !v@[1].is_primary_key && v@[1].ty@ == "DateTimeUtc"@,
        !v@[2].is_primary_key && v@[2].ty@ == "DateTimeUtc"@,
        forall|i: int| 0 <= i < 3 ==> (#[trigger] v@[i]).column_name is None,
{
    let mut v: Vec<FieldDef> = Vec::new();
    v.push(FieldDef { name: "id", ty: "Uuid", is_primary_key: true, column_name: None });
    v.push(plain_field("created_at", "DateTimeUtc"));
    v.push(plain_field("updated_at", "DateTimeUtc"));
    assert(field_names(v@) =~= required_names());
    v
}

/// The optional schema plugins: soft delete, metadata and slug.
pub fn app_schemas() -> (v: Vec<AppSchema>)
    ensures
        v@.len() == 3,
        v@[0].name@ == "soft-delete"@,
        v@[1].name@ == "metadata"@,
        v@[2].name@ == "slug"@,
        field_names(v@[0].fields@) == seq!["deleted_at"@],
        field_names(v@[1].fields@) == seq!["metadata"@],
        field_names(v@[2].fields@) == seq!["slug"@],
        v@[0].fields@[0].ty@ == "Option<DateTimeUtc>"@,
        v@[1].fields@[0].ty@ == "Json"@,
        v@[1].fields@[0].column_name == Some("metadata"),
        v@[2].fields@[0].ty@ == "String"@,
        forall|i: int| 0 <= i < 3 ==> !(#[trigger] v@[i]).fields@[0].is_primary_key,
        v@[0].fields@[0].column_name is None,
        v@[2].fields@[0].column_name is None,
{
    let mut soft_delete: Vec<FieldDef> = Vec::new();
    soft_delete.push(plain_field("deleted_at", "Option<DateTimeUtc>"));
    let mut metadata: Vec<FieldDef> = Vec::new();
    metadata.push(
        FieldDef { name: "metadata", ty: "Json", is_primary_key: false, column_name: Some("metadata") },
    );
    let mut slug: Vec<FieldDef> = Vec::new();
    slug.push(plain_field("slug", "String"));
    let mut v: Vec<AppSchema> = Vec::new();
    v.push(AppSchema { name: "soft-delete", fields: soft_delete });
    v.push(AppSchema { name: "metadata", fields: metadata });
    v.push(AppSchema { name: "slug", fields: slug });
    assert(field_names(v@[0].fields@) =~= seq!["deleted_at"@]);
    assert(field_names(v@[1].fields@) =~= seq!["metadata"@]);
    assert(field_names(v@[2].fields@) =~= seq!["slug"@]);
    v
}

pub open spec fn names_view(v: Seq<&'static str>) -> Seq<Seq<char>> {
    Seq::new(v.len(), |i: int| v[i]@)
}

/// The names of the fields every entity must declare.
pub fn required_field_names() -> (v: Vec<&'static str>)
    ensures
        names_view(v@) == required_names(),
{
    let fields = entity_required_fields();
    let mut v: Vec<&'static str> = Vec::new();
    let mut i: usize = 0;
    while i < fields.len()
        invariant
            i <= fields.len(),
            field_names(fields@) == required_names(),
            v@.len() == i,
            names_view(v@) == field_names(fields@.subrange(0, i as int)),
        decreases fields.len() - i,
    {
        let ghost before = v@;
        v.push(fields[i].name);
        proof {
            let target = field_names(fields@.subrange(0, i + 1));
            assert forall|k: int| 0 <= k < v@.len() implies names_view(v@)[k] == target[k] by {
                if k < i {
                    assert(names_view(before)[k] == field_names(fields@.subrange(0, i as int))[k]);
                }
            }
            assert(names_view(v@) =~= target);
        }
        i = i + 1;
    }
    assert(fields@.subrange(0, fields.len() as int) =~= fields@);
    v
}

/// The names of all plugin fields, plugin by plugin.
pub fn all_schema_field_names() -> (v: Vec<&'static str>)
    ensures
        names_view(v@) == schema_names(),
{
    let schemas = app_schemas();
    let mut v: Vec<&'static str> = Vec::new();
    let mut i: usize = 0;
    while i < schemas.len()
        invariant
            i <= schemas.len(),
            schemas@.len() == 3,
            names_view(v@) == plugin_field_names(schemas@.subrange(0, i as int)),
        decreases schemas.len() - i,
    {
        let fields = &schemas[i].fields;
        let ghost before = v@;
        let mut j: usize = 0;
        while j < fields.len()
            invariant
                j <= fields.len(),
                v@.len() == before.len() + j,
                names_view(v@) == names_view(before) + field_names(fields@.subrange(0, j as int)),
            decreases fields.len() - j,
        {
            let ghost mid = v@;
            v.push(fields[j].name);
            proof {
                let target = names_view(before) + field_names(fields@.subrange(0, j + 1));
                let prev = names_view(before) + field_names(fields@.subrange(0, j as int));
                assert forall|k: int| 0 <= k < v@.len() implies names_view(v@)[k] == target[k] by {
                    if k < mid.len() {
                        assert(names_view(mid)[k] == prev[k]);
                        if k >= before.len() {
                            assert(field_names(fields@.subrange(0, j as int))[k - before.len()]
                                == fields@[k - before.len()].name@);
                        }
                    }
                }
                assert(names_view(v@) =~= target);
            }
            j = j + 1;
        }
        proof {
            assert(fields@.subrange(0, fields.len() as int) =~= fields@);
            assert(schemas@.subrange(0, i + 1).drop_last() =~= schemas@.subrange(0, i as int));
        }
        i = i + 1;
    }
    proof {
        assert(schemas@.subrange(0, 3) =~= schemas@);
        let s = schemas@;
        assert(s.subrange(0, 1).drop_last() =~= s.subrange(0, 0));
        assert(s.subrange(0, 2).drop_last() =~= s.subrange(0, 1));
        assert(s.subrange(0, 3).drop_last() =~= s.subrange(0, 2));
        assert(plugin_field_names(s.subrange(0, 0)) =~= Seq::<Seq<char>>::empty());
        assert(plugin_field_names(s.subrange(0, 1)) =~= seq!["deleted_at"@]);
        assert(plugin_field_names(s.subrange(0, 2)) =~= seq!["deleted_at"@, "metadata"@]);
        assert(plugin_field_names(s.subrange(0, 3)) =~= schema_names());
    }
    v
}

/// Whether `name` is a field that some schema plugin contributes.
pub fn is_schema_field(name: &str) -> (b: bool)
    ensures
        b == schema_names().contains(name@),
{
    let names = all_schema_field_names();
    let mut i: usize = 0;
    while i < names.len()
        invariant
            i <= names.len(),
            names_view(names@) == schema_names(),
            forall|j: int| 0 <= j < i ==> names@[j]@ != name@,
        decreases names.len() - i,
    {
        if str_equal(names[i], name) {
            assert(names_view(names@)[i as int] == name@);
            return true;
        }
        i = i + 1;
    }
    proof {
        if schema_names().contains(name@) {
            let k = choose|k: int| 0 <= k < schema_names().len() && schema_names()[k] == name@;
            assert(names_view(names@)[k] == names@[k]@);
        }
    }
    false
}


/// The first field, in declaration order of the required fields, that
/// `fields` lacks.
pub open spec fn first_missing_required(fields: Seq<Seq<char>>) -> Option<Seq<char>> {
    if !fields.contains("id"@) {
        Some("id"@)
    } else if !fields.contains("created_at"@) {
        Some("created_at"@)
    } else if !fields.contains("updated_at"@) {
        Some("updated_at"@)
    } else {
        None
    }
}

/// The fields that are neither required nor contributed by a plugin, in order.
pub open spec fn entity_specific(fields: Seq<Seq<char>>) -> Seq<Seq<char>>
    decreases fields.len(),
{
    if fields.len() == 0 {
        Seq::empty()
    } else if required_names().contains(fields.last()) || schema_names().contains(fields.last()) {
        entity_specific(fields.drop_last())
    } else {
        entity_specific(fields.drop_last()).push(fields.last())
    }
}

/// How an entity's fields are handled: the entity-specific ones, left to
/// database defaults on creation, and which plugins the entity opts into.
#[derive(Debug)]
pub struct EntityFieldPlan {
    pub extra: Vec<String>,
    pub soft_delete: bool,
    pub metadata: bool,
    pub slug: bool,
}

fn contains_name(names: &Vec<String>, name: &str) -> (b: bool)
    ensures
        b == names_of(names@).contains(name@),
{
    let mut i: usize = 0;
    while i < names.len()
        invariant
            i <= names.len(),
            forall|j: int| 0 <= j < i ==> names@[j]@ != name@,
        decreases names.len() - i,
    {
        if str_equal(names[i].as_str(), name) {
            assert(names_of(names@)[i as int] == name@);
            return true;
        }
        i = i + 1;
    }
    proof {
        if names_of(names@).contains(name@) {
            let k = choose|k: int| 0 <= k < names@.len() && names_of(names@)[k] == name@;
            assert(names@[k]@ == name@);
        }
    }
    false
}

fn contains_static(names: &Vec<&'static str>, name: &str) -> (b: bool)
    ensures
        b == names_view(names@).contains(name@),
{
    let mut i: usize = 0;
    while i < names.len()
        invariant
            i <= names.len(),
            forall|j: int| 0 <= j < i ==> names@[j]@ != name@,
        decreases names.len() - i,
    {
        if str_equal(names[i], name) {
            assert(names_view(names@)[i as int] == name@);
            return true;
        }
        i = i + 1;
    }
    proof {
        if names_view(names@).contains(name@) {
            let k = choose|k: int| 0 <= k < names@.len() && names_view(names@)[k] == name@;
            assert(names@[k]@ == name@);
        }
    }
    false
}

pub open spec fn names_of(v: Seq<String>) -> Seq<Seq<char>> {
    Seq::new(v.len(), |i: int| v[i]@)
}

fn missing_field_message(name: &str) -> (m: String)
    ensures
        m@ == "OrmEntity: missing required field `"@ + name@ + "`"@,
{
    let mut m = "OrmEntity: missing required field `".to_owned();
    m.append(name);
    m.append("`");
    m
}

/// Checks an entity's declared field names: every required field must be
/// declared (the first missing one is reported); the plugin fields switch
/// their plugins on; all other fields are entity-specific.
pub fn classify_entity_fields(fields: &Vec<String>) -> (r: Result<EntityFieldPlan, String>)
    ensures
        match r {
            Ok(plan) => first_missing_required(names_of(fields@)) is None
                && names_of(plan.extra@) == entity_specific(names_of(fields@))
                && plan.soft_delete == names_of(fields@).contains("deleted_at"@)
                && plan.metadata == names_of(fields@).contains("metadata"@)
                && plan.slug == names_of(fields@).contains("slug"@),
            Err(msg) => first_missing_required(names_of(fields@)) matches Some(m) && msg@
                == "OrmEntity: missing required field `"@ + m + "`"@,
        },
{
    let ghost fv = names_of(fields@);
    proof {
        reveal_strlit("id");
        reveal_strlit("created_at");
        reveal_strlit("updated_at");
    }
    if !contains_name(fields, "id") {
        return Err(missing_field_message("id"));
    }
    if !contains_name(fields, "created_at") {
        return Err(missing_field_message("created_at"));
    }
    if !contains_name(fields, "updated_at") {
        return Err(missing_field_message("updated_at"));
    }
    let required = required_field_names();
    let schema = all_schema_field_names();
    let mut extra: Vec<String> = Vec::new();
    let mut i: usize = 0;
    while i < fields.len()
        invariant
            i <= fields.len(),
            fv == names_of(fields@),
            names_view(required@) == required_names(),
            names_view(schema@) == schema_names(),
            names_of(extra@) == entity_specific(fv.subrange(0, i as int)),
        decreases fields.len() - i,
    {
        proof {
            assert(fv.subrange(0, i + 1).drop_last() =~= fv.subrange(0, i as int));
            assert(fv.subrange(0, i + 1).last() == fields@[i as int]@);
        }
        let name = fields[i].as_str();
        if !contains_static(&required, name) && !contains_static(&schema, name) {
            let ghost before = extra@;
            extra.push(fields[i].clone());
            proof {
                assert(names_of(extra@) =~= names_of(before).push(fields@[i as int]@));
            }
        }
        i = i + 1;
    }
    assert(fv.subrange(0, fields.len() as int) =~= fv);
    let soft_delete = contains_name(fields, "deleted_at");
    let metadata = contains_name(fields, "metadata");
    let slug = contains_name(fields, "slug");
    Ok(EntityFieldPlan { extra, soft_delete, metadata, slug })
}

/// Every declared field is handled one way: entity-specific fields are
/// declared fields that are neither required nor contributed by a plugin, and
/// every such declared field is entity-specific.
pub proof fn law_fields_partitioned(fields: Seq<Seq<char>>)
    ensures
        forall|i: int| 0 <= i < entity_specific(fields).len() ==> fields.contains(
            #[trigger] entity_specific(fields)[i],
        ) && !required_names().contains(entity_specific(fields)[i]) && !schema_names().contains(
            entity_specific(fields)[i],
        ),
        forall|j: int|
            0 <= j < fields.len() && !required_names().contains(#[trigger] fields[j])
                && !schema_names().contains(fields[j]) ==> entity_specific(fields).contains(fields[j]),
    decreases fields.len(),
{
    if fields.len() > 0 {
        let rest = fields.drop_last();
        law_fields_partitioned(rest);
        let u = entity_specific(rest);
        let known = required_names().contains(fields.last()) || schema_names().contains(fields.last());
        assert forall|i: int| 0 <= i < entity_specific(fields).len() implies fields.contains(
            #[trigger] entity_specific(fields)[i],
        ) && !required_names().contains(entity_specific(fields)[i]) && !schema_names().contains(
            entity_specific(fields)[i],
        ) by {
            if i < u.len() {
                assert(entity_specific(fields)[i] == u[i]);
                let k = choose|k: int| 0 <= k < rest.len() && rest[k] == u[i];
                assert(fields[k] == rest[k]);
            } else {
                assert(fields[fields.len() - 1] == fields.last());
            }
        }
        assert forall|j: int|
            0 <= j < fields.len() && !required_names().contains(#[trigger] fields[j])
                && !schema_names().contains(fields[j]) implies entity_specific(fields).contains(
            fields[j],
        ) by {
            if j < fields.len() - 1 {
                assert(rest[j] == fields[j]);
                let k = choose|k: int| 0 <= k < u.len() && u[k] == rest[j];
                if !known {
                    assert(entity_specific(fields)[k] == u[k]);
                }
            } else {
                assert(entity_specific(fields)[u.len() as int] == fields.last());
            }
        }
    }
}


/// An entity's fields pass the check exactly when `id`, `created_at` and
/// `updated_at` are all among them; a refusal names one of those three that
/// is missing.
pub proof fn law_required_fields_checked(fields: Seq<Seq<char>>)
    ensures
        first_missing_required(fields) is None <==> (fields.contains("id"@) && fields.contains(
            "created_at"@,
        ) && fields.contains("updated_at"@)),
        match first_missing_required(fields) {
            Some(m) => !fields.contains(m) && (m == "id"@ || m == "created_at"@ || m == "updated_at"@),
            None => true,
        },
{
}

} // verus!

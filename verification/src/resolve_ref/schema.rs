use vstd::prelude::*;
use super::model::{
    option_model, site_models, Document, ReferenceOr, Schema, SchemaModel, SiteModel,
};
use super::properties::{has_key, PropertyMap};
use super::resolvers::{schema_target, SchemaResolver};
use super::traits::OpenApiResolver;

verus! {

/// How many levels of nested schema sites `resolve_schema_fully` expands.
/// Sites that lie deeper stay as they are.
pub const MAX_NESTING_DEPTH: usize = 64;

/// The schema that a site stands for: the schema itself where it is inline,
/// the end of its chain where it is a reference.
pub open spec fn site_schema(document: &Document, site: SiteModel) -> Option<SchemaModel> {
    match site {
        SiteModel::Item(schema) => Some(schema),
        SiteModel::Reference { reference } => option_model(schema_target(document, reference)),
    }
}

/// The schema that `site` stands for with the sites inside it expanded,
/// `depth` levels deep, counting the schema itself as the first level.
/// Nothing where the site resolves to nothing or `depth` is zero.
pub open spec fn deep_schema(document: &Document, site: SiteModel, depth: nat) -> Option<
    SchemaModel,
>
    decreases depth, 0nat,
{
    if depth == 0 {
        None
    } else {
        match site_schema(document, site) {
            Some(schema) => Some(expand_schema(document, schema, (depth - 1) as nat)),
            None => None,
        }
    }
}

/// A site after expansion: its deep resolution written in place, or the site
/// unchanged where it has none.
pub open spec fn expand_site(document: &Document, site: SiteModel, depth: nat) -> SiteModel
    decreases depth, 1nat,
{
    match deep_schema(document, site, depth) {
        Some(schema) => SiteModel::Item(schema),
        None => site,
    }
}

/// Every site of a list expanded, in place and in order.
pub open spec fn expand_sites(document: &Document, sites: Seq<SiteModel>, depth: nat) -> Seq<
    SiteModel,
>
    decreases depth, 2nat,
{
    Seq::new(sites.len(), |i: int| expand_site(document, sites[i], depth))
}

/// Every property's site expanded; names and order stay.
pub open spec fn expand_properties(
    document: &Document,
    properties: Seq<(Seq<char>, SiteModel)>,
    depth: nat,
) -> Seq<(Seq<char>, SiteModel)>
    decreases depth, 2nat,
{
    Seq::new(
        properties.len(),
        |i: int| (properties[i].0, expand_site(document, properties[i].1, depth)),
    )
}

/// A schema with the sites it owns expanded: the properties of an object,
/// the items of an array, the members of a composition. Every other kind,
/// `Not` among them, is left as it is.
pub open spec fn expand_schema(document: &Document, schema: SchemaModel, depth: nat) -> SchemaModel
    decreases depth, 3nat,
{
    match schema {
        SchemaModel::Object { properties } => SchemaModel::Object {
            properties: expand_properties(document, properties, depth),
        },
        SchemaModel::Array { items: Some(site) } => SchemaModel::Array {
            items: Some(Box::new(expand_site(document, *site, depth))),
        },
        SchemaModel::OneOf { one_of } => SchemaModel::OneOf {
            one_of: expand_sites(document, one_of, depth),
        },
        SchemaModel::AllOf { all_of } => SchemaModel::AllOf {
            all_of: expand_sites(document, all_of, depth),
        },
        SchemaModel::AnyOf { any_of } => SchemaModel::AnyOf {
            any_of: expand_sites(document, any_of, depth),
        },
        _ => schema,
    }
}

/// Resolve all references in a schema, including nested ones.
///
/// The top-level site is resolved through its chain; then the properties,
/// array items and composition members of the result are resolved in the
/// same way, level by level. A nested site that does not resolve stays as
/// it was. The call gives nothing only where the top-level site resolves to
/// nothing.
pub fn resolve_schema_fully(schema: &ReferenceOr<Schema>, document: &Document) -> (result: Option<
    Schema,
>)
    ensures
        option_model(result) == deep_schema(document, schema@, MAX_NESTING_DEPTH as nat),
        result is Some <==> site_schema(document, schema@) is Some,
{
    resolve_schema_within(schema, document, MAX_NESTING_DEPTH)
}

/// `resolve_schema_fully` with a chosen number of levels. The schema that
/// the site stands for is the first level, so with `depth` zero the call
/// gives nothing.
pub fn resolve_schema_within(
    schema: &ReferenceOr<Schema>,
    document: &Document,
    depth: usize,
) -> (result: Option<Schema>)
    ensures
        option_model(result) == deep_schema(document, schema@, depth as nat),
    decreases depth, 0nat,
{
    if depth == 0 {
        return None;
    }
    let resolver = SchemaResolver::new();
    let resolved = match resolver.resolve_reference_or(schema, document) {
        Some(resolved) => resolved,
        None => { return None; },
    };
    assert(Some(resolved@) == site_schema(document, schema@));
    let depth = depth - 1;
    let expanded = match resolved {
        Schema::Object { properties } => Schema::Object {
            properties: resolve_properties(&properties, document, depth),
        },
        Schema::Array { items: Some(site) } => Schema::Array {
            items: Some(Box::new(resolve_site(&*site, document, depth))),
        },
        Schema::OneOf { one_of } => {
            let mut members = one_of;
            resolve_list_within(members.as_mut_slice(), document, depth);
            Schema::OneOf { one_of: members }
        },
        Schema::AllOf { all_of } => {
            let mut members = all_of;
            resolve_list_within(members.as_mut_slice(), document, depth);
            Schema::AllOf { all_of: members }
        },
        Schema::AnyOf { any_of } => {
            let mut members = any_of;
            resolve_list_within(members.as_mut_slice(), document, depth);
            Schema::AnyOf { any_of: members }
        },
        other => other,
    };
    Some(expanded)
}

/// One site expanded: its deep resolution, or a copy of the site where it
/// has none.
fn resolve_site(site: &ReferenceOr<Schema>, document: &Document, depth: usize) -> (result:
    ReferenceOr<Schema>)
    ensures
        result@ == expand_site(document, site@, depth as nat),
    decreases depth, 1nat,
{
    match resolve_schema_within(site, document, depth) {
        Some(schema) => ReferenceOr::Item(schema),
        None => site.clone(),
    }
}

/// The properties of an object with every site expanded.
fn resolve_properties(properties: &PropertyMap, document: &Document, depth: usize) -> (result:
    PropertyMap)
    ensures
        result@ == expand_properties(document, properties@, depth as nat),
    decreases depth, 2nat,
{
    let mut resolved = PropertyMap::new();
    let n = properties.len();
    let mut i: usize = 0;
    while i < n
        invariant
            n == properties@.len(),
            i <= n,
            resolved@ == expand_properties(document, properties@, depth as nat).take(i as int),
        decreases n - i,
    {
        match properties.get_index(i) {
            Some((name, site)) => {
                let expanded = resolve_site(site, document, depth);
                proof {
                    let target = expand_properties(document, properties@, depth as nat);
                    assert forall|j: int| 0 <= j < resolved@.len() implies (
                    #[trigger] resolved@[j]).0 != name@ by {
                        assert(resolved@[j] == target[j]);
                        assert(properties@[j].0 != name@);
                    }
                    assert(!has_key(resolved@, name@));
                    assert(target.take(i as int).push((name@, expanded@)) =~= target.take(i + 1));
                }
                resolved.insert(name.clone(), expanded);
            },
            None => {},
        }
        i = i + 1;
    }
    assert(resolved@ =~= expand_properties(document, properties@, depth as nat));
    resolved
}

/// Every member of a list expanded in place, `depth` levels deep. A member
/// without a deep resolution is not touched.
fn resolve_list_within(schema_list: &mut [ReferenceOr<Schema>], document: &Document, depth: usize)
    ensures
        site_models(final(schema_list)@) == expand_sites(
            document,
            site_models(old(schema_list)@),
            depth as nat,
        ),
        final(schema_list)@.len() == old(schema_list)@.len(),
        forall|i: int|
            0 <= i < old(schema_list)@.len() && deep_schema(
                document,
                old(schema_list)@[i]@,
                depth as nat,
            ) is None ==> #[trigger] final(schema_list)@[i] == old(schema_list)@[i],
    decreases depth, 2nat,
{
    let ghost before = schema_list@;
    let n = schema_list.len();
    let mut i: usize = 0;
    while i < n
        invariant
            n == before.len(),
            schema_list@.len() == n,
            i <= n,
            forall|j: int|
                0 <= j < i ==> (#[trigger] schema_list@[j])@ == expand_site(
                    document,
                    before[j]@,
                    depth as nat,
                ),
            forall|j: int|
                0 <= j < i && deep_schema(document, before[j]@, depth as nat) is None
                    ==> #[trigger] schema_list@[j] == before[j],
            forall|j: int| i <= j < n ==> #[trigger] schema_list@[j] == before[j],
        decreases n - i,
    {
        match resolve_schema_within(&schema_list[i], document, depth) {
            Some(schema) => {
                schema_list[i] = ReferenceOr::Item(schema);
            },
            None => {},
        }
        i = i + 1;
    }
    assert(site_models(schema_list@) =~= expand_sites(
        document,
        site_models(before),
        depth as nat,
    ));
}

/// Resolve each schema of a list in place.
///
/// A member that resolves is replaced by its full resolution; one that does
/// not is left untouched.
pub fn resolve_schema_list(schema_list: &mut [ReferenceOr<Schema>], document: &Document)
    ensures
        site_models(final(schema_list)@) == expand_sites(
            document,
            site_models(old(schema_list)@),
            MAX_NESTING_DEPTH as nat,
        ),
        final(schema_list)@.len() == old(schema_list)@.len(),
        forall|i: int|
            0 <= i < old(schema_list)@.len() && site_schema(document, old(schema_list)@[i]@)
                is None ==> #[trigger] final(schema_list)@[i] == old(schema_list)@[i],
{
    resolve_list_within(schema_list, document, MAX_NESTING_DEPTH)
}

} // verus!

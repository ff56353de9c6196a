use vstd::prelude::*;
use super::model::{Document, ReferenceOr, Schema, SchemaModel, SiteModel};
use super::resolvers::{
    chain_target, named_entry, schema_target, ExampleGetter, GenericResolver, ParameterGetter,
    RequestBodyGetter, ResponseGetter, SchemaGetter, MAX_CHAIN_LENGTH,
};
use super::schema::{deep_schema, expand_properties, expand_site, site_schema};
use super::traits::{ComponentGetter, OpenApiResolver};
use super::utils::ref_segments;

verus! {

/// A pointer whose category segment is not the resolver's own resolves to
/// nothing, whatever the tables of the document hold and however many
/// pointers may be followed.
pub proof fn law_category_mismatch<T: Clone, G: ComponentGetter<T>>(
    resolver: GenericResolver<T, G>,
    document: &Document,
    reference: Seq<char>,
    hops: nat,
    result: Option<T>,
)
    requires
        ref_segments(reference)[1] != G::segment(),
    ensures
        named_entry::<T, G>(document, reference) is None,
        chain_target::<T, G>(document, reference, hops) is None,
        resolver.resolves(reference, document, result) ==> result is None,
{
    reveal_with_fuel(chain_target, 2);
    assert(chain_target::<T, G>(document, reference, MAX_CHAIN_LENGTH as nat) is None);
}

/// The five categories have five different path segments, so a pointer into
/// one of them is a pointer into none of the others.
pub proof fn law_categories_are_distinct()
    ensures
        SchemaGetter::segment() != ResponseGetter::segment(),
        SchemaGetter::segment() != ParameterGetter::segment(),
        SchemaGetter::segment() != RequestBodyGetter::segment(),
        SchemaGetter::segment() != ExampleGetter::segment(),
        ResponseGetter::segment() != ParameterGetter::segment(),
        ResponseGetter::segment() != RequestBodyGetter::segment(),
        ResponseGetter::segment() != ExampleGetter::segment(),
        ParameterGetter::segment() != RequestBodyGetter::segment(),
        ParameterGetter::segment() != ExampleGetter::segment(),
        RequestBodyGetter::segment() != ExampleGetter::segment(),
{
    reveal_strlit("schemas");
    reveal_strlit("responses");
    reveal_strlit("parameters");
    reveal_strlit("requestBodies");
    reveal_strlit("examples");
    assert("schemas"@[0] == 's' && "responses"@[0] == 'r' && "parameters"@[0] == 'p');
    assert("requestBodies"@[2] == 'q' && "responses"@[2] == 's');
    assert("examples"@[0] == 'e');
}

/// A pointer at an inline entry resolves to that entry's value.
pub proof fn law_inline_entry<T, G: ComponentGetter<T>>(
    document: &Document,
    reference: Seq<char>,
    value: T,
    hops: nat,
)
    requires
        named_entry::<T, G>(document, reference) == Some(ReferenceOr::<T>::Item(value)),
        hops >= 1,
    ensures
        chain_target::<T, G>(document, reference, hops) == Some(value),
{
}

/// A pointer at an entry that is itself a reference resolves to whatever
/// that reference resolves to with one pointer less to follow.
pub proof fn law_reference_entry<T, G: ComponentGetter<T>>(
    document: &Document,
    reference: Seq<char>,
    next: String,
    hops: nat,
)
    requires
        named_entry::<T, G>(document, reference) == Some(
            ReferenceOr::<T>::Reference { reference: next },
        ),
        hops >= 1,
    ensures
        chain_target::<T, G>(document, reference, hops) == chain_target::<T, G>(
            document,
            next@,
            (hops - 1) as nat,
        ),
{
}

/// Whether `pointers` is a chain in category `G` that ends at the inline
/// value `value`: each pointer but the last names an entry that refers to
/// the next pointer, and the last names an inline entry with that value.
pub open spec fn is_chain_to<T, G: ComponentGetter<T>>(
    document: &Document,
    pointers: Seq<Seq<char>>,
    value: T,
) -> bool {
    &&& pointers.len() >= 1
    &&& forall|i: int|
        0 <= i < pointers.len() - 1 ==> (#[trigger] named_entry::<T, G>(document, pointers[i])
            matches Some(ReferenceOr::Reference { reference }) && reference@ == pointers[i + 1])
    &&& named_entry::<T, G>(document, pointers.last()) == Some(ReferenceOr::<T>::Item(value))
}

/// Following a chain of references leads to the inline value at its end,
/// when enough pointers may be followed: if `A` refers to `B` and `B` holds
/// `V`, then `A` resolves to `V`, and so on for longer chains.
pub proof fn law_chain_resolution<T, G: ComponentGetter<T>>(
    document: &Document,
    pointers: Seq<Seq<char>>,
    value: T,
    hops: nat,
)
    requires
        is_chain_to::<T, G>(document, pointers, value),
        pointers.len() <= hops,
    ensures
        chain_target::<T, G>(document, pointers[0], hops) == Some(value),
    decreases pointers.len(),
{
    if pointers.len() > 1 {
        let rest = pointers.skip(1);
        assert(named_entry::<T, G>(document, pointers[0]) is Some);
        assert forall|i: int| 0 <= i < rest.len() - 1 implies (#[trigger] named_entry::<T, G>(
            document,
            rest[i],
        ) matches Some(ReferenceOr::Reference { reference }) && reference@ == rest[i + 1]) by {
            assert(rest[i] == pointers[i + 1]);
            assert(named_entry::<T, G>(document, pointers[i + 1]) is Some);
        }
        assert(rest.last() == pointers.last());
        law_chain_resolution::<T, G>(document, rest, value, (hops - 1) as nat);
    }
}

/// A resolver's answer to the first pointer of a chain of at most
/// `MAX_CHAIN_LENGTH` pointers is a clone of the value at the chain's end.
pub proof fn law_chain_yields_clone<T: Clone, G: ComponentGetter<T>>(
    resolver: GenericResolver<T, G>,
    document: &Document,
    pointers: Seq<Seq<char>>,
    value: T,
    result: Option<T>,
)
    requires
        is_chain_to::<T, G>(document, pointers, value),
        pointers.len() <= MAX_CHAIN_LENGTH,
        resolver.resolves(pointers[0], document, result),
    ensures
        result matches Some(copy) && cloned::<T>(value, copy),
{
    law_chain_resolution::<T, G>(document, pointers, value, MAX_CHAIN_LENGTH as nat);
}

/// A chain of schemas resolves to a schema with the value of the one at its
/// end.
pub proof fn law_schema_chain_value(
    document: &Document,
    pointers: Seq<Seq<char>>,
    value: Schema,
)
    requires
        is_chain_to::<Schema, SchemaGetter>(document, pointers, value),
        pointers.len() <= MAX_CHAIN_LENGTH,
    ensures
        site_schema(document, SiteModel::Reference { reference: pointers[0] }) == Some(value@),
{
    law_chain_resolution::<Schema, SchemaGetter>(
        document,
        pointers,
        value,
        MAX_CHAIN_LENGTH as nat,
    );
}

/// An inline site stands for its own schema, whatever the document holds,
/// and its deep resolution exists at every depth but zero.
pub proof fn law_inline_site(document: &Document, schema: SchemaModel, depth: nat)
    requires
        depth >= 1,
    ensures
        site_schema(document, SiteModel::Item(schema)) == Some(schema),
        deep_schema(document, SiteModel::Item(schema), depth) is Some,
{
}

/// Deep resolution gives nothing exactly where the top-level site resolves
/// to nothing: a nested site that fails never makes the whole call fail.
pub proof fn law_only_top_level_fails(document: &Document, site: SiteModel, depth: nat)
    requires
        depth >= 1,
    ensures
        deep_schema(document, site, depth) is None <==> site_schema(document, site) is None,
{
}

/// In the deep resolution of an object, the properties keep their names and
/// order, and the site of each is replaced by its own deep resolution where
/// it has one.
pub proof fn law_object_properties_expanded(
    document: &Document,
    site: SiteModel,
    depth: nat,
    properties: Seq<(Seq<char>, SiteModel)>,
)
    requires
        depth >= 1,
        site_schema(document, site) == Some(SchemaModel::Object { properties }),
    ensures
        deep_schema(document, site, depth) matches Some(
            SchemaModel::Object { properties: resolved },
        ) && resolved.len() == properties.len() && forall|i: int|
            0 <= i < properties.len() ==> #[trigger] resolved[i] == (
                properties[i].0,
                expand_site(document, properties[i].1, (depth - 1) as nat),
            ),
{
    let resolved = expand_properties(document, properties, (depth - 1) as nat);
    assert(deep_schema(document, site, depth) == Some(
        SchemaModel::Object { properties: resolved },
    ));
}

/// In the deep resolution of an object, a property that refers to a name
/// which the schema table does not hold keeps its reference, and every
/// property, that one included, is the expansion of the original property
/// alone: a failure at one property changes nothing at its siblings.
pub proof fn law_unresolved_property_is_kept(
    document: &Document,
    site: SiteModel,
    depth: nat,
    properties: Seq<(Seq<char>, SiteModel)>,
    index: int,
    reference: Seq<char>,
)
    requires
        depth >= 1,
        site_schema(document, site) == Some(SchemaModel::Object { properties }),
        0 <= index < properties.len(),
        properties[index].1 == (SiteModel::Reference { reference }),
        named_entry::<Schema, SchemaGetter>(document, reference) is None,
    ensures
        deep_schema(document, site, depth) matches Some(
            SchemaModel::Object { properties: resolved },
        ) && resolved.len() == properties.len() && resolved[index] == properties[index]
            && forall|j: int|
            0 <= j < properties.len() ==> #[trigger] resolved[j] == (
                properties[j].0,
                expand_site(document, properties[j].1, (depth - 1) as nat),
            ),
{
    reveal_with_fuel(chain_target, 2);
    assert(schema_target(document, reference) is None);
    assert(site_schema(document, properties[index].1) is None);
    assert(deep_schema(document, properties[index].1, (depth - 1) as nat) is None);
    let below = (depth - 1) as nat;
    let resolved = expand_properties(document, properties, below);
    assert(deep_schema(document, site, depth) == Some(
        SchemaModel::Object { properties: resolved },
    ));
    assert(expand_site(document, properties[index].1, below) == properties[index].1);
    assert(resolved[index] == properties[index]);
}

/// In the deep resolution of an array, the item site is replaced by its own
/// deep resolution where it has one.
pub proof fn law_array_items_expanded(
    document: &Document,
    site: SiteModel,
    depth: nat,
    items: SiteModel,
)
    requires
        depth >= 1,
        site_schema(document, site) == Some(SchemaModel::Array { items: Some(Box::new(items)) }),
    ensures
        deep_schema(document, site, depth) == Some(
            SchemaModel::Array {
                items: Some(Box::new(expand_site(document, items, (depth - 1) as nat))),
            },
        ),
{
}

/// In the deep resolution of a `oneOf`, the members keep their number and
/// order, and each is replaced by its own deep resolution where it has one.
pub proof fn law_members_keep_order(
    document: &Document,
    site: SiteModel,
    depth: nat,
    members: Seq<SiteModel>,
)
    requires
        depth >= 1,
        site_schema(document, site) == Some(SchemaModel::OneOf { one_of: members }),
    ensures
        deep_schema(document, site, depth) matches Some(SchemaModel::OneOf { one_of: resolved })
            && resolved.len() == members.len() && forall|i: int|
            0 <= i < members.len() ==> #[trigger] resolved[i] == expand_site(
                document,
                members[i],
                (depth - 1) as nat,
            ),
{
}

/// A `not` schema is returned as it is: the schema inside it is not
/// expanded.
pub proof fn law_not_is_left_alone(
    document: &Document,
    site: SiteModel,
    depth: nat,
    inner: SiteModel,
)
    requires
        depth >= 1,
        site_schema(document, site) == Some(SchemaModel::Not { not: Box::new(inner) }),
    ensures
        deep_schema(document, site, depth) == Some(SchemaModel::Not { not: Box::new(inner) }),
{
}

} // verus!

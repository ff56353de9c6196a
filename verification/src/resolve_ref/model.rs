use vstd::prelude::*;
use indexmap::IndexMap;
use openapiv3::{Example, Parameter, RequestBody, Response};
use super::properties::{property_entries, PropertyMap};

verus! {

/// Either a pointer to a named component or a value written in place.
#[derive(Debug, PartialEq)]
pub enum ReferenceOr<T> {
    Reference { reference: String },
    Item(T),
}

/// A schema, by kind. Only the object, array and composition kinds hold
/// further schema sites; `Not` holds one that is never expanded.
#[derive(Debug, PartialEq)]
pub enum Schema {
    String,
    Number,
    Integer,
    Boolean,
    Object { properties: PropertyMap },
    Array { items: Option<Box<ReferenceOr<Schema>>> },
    OneOf { one_of: Vec<ReferenceOr<Schema>> },
    AllOf { all_of: Vec<ReferenceOr<Schema>> },
    AnyOf { any_of: Vec<ReferenceOr<Schema>> },
    Not { not: Box<ReferenceOr<Schema>> },
    Any,
}

/// The mathematical value of a schema site: a pointer text or a schema.
pub enum SiteModel {
    Reference { reference: Seq<char> },
    Item(SchemaModel),
}

/// The mathematical value of a schema. Properties are a sequence of named
/// sites, in insertion order.
pub enum SchemaModel {
    String,
    Number,
    Integer,
    Boolean,
    Object { properties: Seq<(Seq<char>, SiteModel)> },
    Array { items: Option<Box<SiteModel>> },
    OneOf { one_of: Seq<SiteModel> },
    AllOf { all_of: Seq<SiteModel> },
    AnyOf { any_of: Seq<SiteModel> },
    Not { not: Box<SiteModel> },
    Any,
}

/// The value of a schema site.
pub open spec fn site_model(site: ReferenceOr<Schema>) -> SiteModel
    decreases site,
{
    match site {
        ReferenceOr::Reference { reference } => SiteModel::Reference { reference: reference@ },
        ReferenceOr::Item(schema) => SiteModel::Item(schema_model(schema)),
    }
}

/// The values of a list of schema sites, in order.
pub open spec fn site_models(sites: Seq<ReferenceOr<Schema>>) -> Seq<SiteModel>
    decreases sites,
{
    Seq::new(
        sites.len(),
        |i: int|
            if 0 <= i < sites.len() {
                site_model(sites[i])
            } else {
                SiteModel::Item(SchemaModel::Any)
            },
    )
}

/// The value of a schema.
pub open spec fn schema_model(schema: Schema) -> SchemaModel
    decreases schema,
{
    match schema {
        Schema::String => SchemaModel::String,
        Schema::Number => SchemaModel::Number,
        Schema::Integer => SchemaModel::Integer,
        Schema::Boolean => SchemaModel::Boolean,
        Schema::Object { properties } => SchemaModel::Object {
            properties: property_entries(properties),
        },
        Schema::Array { items } => SchemaModel::Array {
            items: match items {
                Some(site) => Some(Box::new(site_model(*site))),
                None => None,
            },
        },
        Schema::OneOf { one_of } => SchemaModel::OneOf { one_of: site_models(one_of@) },
        Schema::AllOf { all_of } => SchemaModel::AllOf { all_of: site_models(all_of@) },
        Schema::AnyOf { any_of } => SchemaModel::AnyOf { any_of: site_models(any_of@) },
        Schema::Not { not } => SchemaModel::Not { not: Box::new(site_model(*not)) },
        Schema::Any => SchemaModel::Any,
    }
}

impl View for Schema {
    type V = SchemaModel;

    open spec fn view(&self) -> SchemaModel {
        schema_model(*self)
    }
}

impl View for ReferenceOr<Schema> {
    type V = SiteModel;

    open spec fn view(&self) -> SiteModel {
        site_model(*self)
    }
}

/// The value of an optional schema.
pub open spec fn option_model(schema: Option<Schema>) -> Option<SchemaModel> {
    match schema {
        Some(s) => Some(s@),
        None => None,
    }
}

impl<T: Clone> Clone for ReferenceOr<T> {
    /// A reference keeps its text; an item is cloned by `T`'s own `clone`.
    fn clone(&self) -> (res: Self)
        ensures
            match (*self, res) {
                (
                    ReferenceOr::Reference { reference: a },
                    ReferenceOr::Reference { reference: b },
                ) => a == b,
                (ReferenceOr::Item(a), ReferenceOr::Item(b)) => cloned::<T>(a, b),
                _ => false,
            },
    {
        match self {
            ReferenceOr::Reference { reference } => ReferenceOr::Reference {
                reference: reference.clone(),
            },
            ReferenceOr::Item(item) => ReferenceOr::Item(item.clone()),
        }
    }
}

/// A deep copy of a list of schema sites.
fn clone_sites(sites: &Vec<ReferenceOr<Schema>>) -> (res: Vec<ReferenceOr<Schema>>)
    ensures
        site_models(res@) == site_models(sites@),
    decreases sites,
{
    let mut out: Vec<ReferenceOr<Schema>> = Vec::new();
    let mut i: usize = 0;
    while i < sites.len()
        invariant
            i <= sites.len(),
            out.len() == i,
            forall|j: int| 0 <= j < i ==> site_model(out@[j]) == site_model(sites@[j]),
        decreases sites.len() - i,
    {
        proof {
            assert(decreases_to!(sites => sites@[i as int]));
        }
        out.push(clone_site(&sites[i]));
        i = i + 1;
    }
    assert(site_models(out@) =~= site_models(sites@));
    out
}

/// A deep copy of one schema site.
fn clone_site(site: &ReferenceOr<Schema>) -> (res: ReferenceOr<Schema>)
    ensures
        res@ == site@,
    decreases site,
{
    match site {
        ReferenceOr::Reference { reference } => ReferenceOr::Reference {
            reference: reference.clone(),
        },
        ReferenceOr::Item(schema) => ReferenceOr::Item(schema.clone()),
    }
}

impl Clone for Schema {
    /// A deep copy: the result has the value of the original.
    fn clone(&self) -> (res: Self)
        ensures
            res@ == self@,
        decreases self,
    {
        match self {
            Schema::String => Schema::String,
            Schema::Number => Schema::Number,
            Schema::Integer => Schema::Integer,
            Schema::Boolean => Schema::Boolean,
            Schema::Object { properties } => Schema::Object { properties: properties.clone() },
            Schema::Array { items } => Schema::Array {
                items: match items {
                    Some(site) => Some(Box::new(clone_site(&**site))),
                    None => None,
                },
            },
            Schema::OneOf { one_of } => Schema::OneOf { one_of: clone_sites(one_of) },
            Schema::AllOf { all_of } => Schema::AllOf { all_of: clone_sites(all_of) },
            Schema::AnyOf { any_of } => Schema::AnyOf { any_of: clone_sites(any_of) },
            Schema::Not { not } => Schema::Not { not: Box::new(clone_site(&**not)) },
            Schema::Any => Schema::Any,
        }
    }
}

/// The component table of a document: one map per category, from a
/// component's name to its value or to a pointer at another component.
#[derive(Debug, Default, PartialEq)]
pub struct Components {
    pub schemas: IndexMap<String, ReferenceOr<Schema>>,
    pub responses: IndexMap<String, ReferenceOr<Response>>,
    pub parameters: IndexMap<String, ReferenceOr<Parameter>>,
    pub examples: IndexMap<String, ReferenceOr<Example>>,
    pub request_bodies: IndexMap<String, ReferenceOr<RequestBody>>,
}

/// An API description, as far as reference resolution reads it.
#[derive(Debug, Default, PartialEq)]
pub struct Document {
    pub components: Option<Components>,
}

} // verus!

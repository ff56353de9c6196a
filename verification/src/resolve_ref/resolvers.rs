use vstd::prelude::*;
use core::marker::PhantomData;
use openapiv3::{Example, Parameter, RequestBody, Response};
use super::model::{option_model, Components, Document, ReferenceOr, Schema};
use super::tables::{
    example_entries, get_example, get_parameter, get_request_body, get_response, get_schema,
    parameter_entries, request_body_entries, response_entries, schema_entries,
};
use super::traits::{ComponentGetter, OpenApiResolver};
use super::utils::{parse_ref, ref_segments, same_text, segment_views};

verus! {

/// The greatest number of pointers that one resolution follows. A chain that
/// has not reached an inline value by then resolves to nothing.
pub const MAX_CHAIN_LENGTH: usize = 64;

/// The entry of category `G` that `reference` names in `document`.
///
/// The pointer must have exactly the segments `components`, the category's
/// segment and a name, the document must have a component table, and the
/// table must hold the name.
pub open spec fn named_entry<T, G: ComponentGetter<T>>(
    document: &Document,
    reference: Seq<char>,
) -> Option<ReferenceOr<T>> {
    let parts = ref_segments(reference);
    if parts.len() == 3 && parts[0] == "components"@ && parts[1] == G::segment() {
        match document.components {
            Some(components) => {
                if G::table(&components).dom().contains(parts[2]) {
                    Some(G::table(&components)[parts[2]])
                } else {
                    None
                }
            },
            None => None,
        }
    } else {
        None
    }
}

/// The inline value at the end of the chain that starts at `reference`,
/// following at most `hops` pointers, all within category `G`.
pub open spec fn chain_target<T, G: ComponentGetter<T>>(
    document: &Document,
    reference: Seq<char>,
    hops: nat,
) -> Option<T>
    decreases hops,
{
    if hops == 0 {
        None
    } else {
        match named_entry::<T, G>(document, reference) {
            Some(ReferenceOr::Item(item)) => Some(item),
            Some(ReferenceOr::Reference { reference: next }) => chain_target::<T, G>(
                document,
                next@,
                (hops - 1) as nat,
            ),
            None => None,
        }
    }
}

/// The inline value that `reference` resolves to in category `G`: the end
/// of its chain, where the chain has at most `MAX_CHAIN_LENGTH` pointers.
pub open spec fn resolved_target<T, G: ComponentGetter<T>>(
    document: &Document,
    reference: Seq<char>,
) -> Option<T> {
    chain_target::<T, G>(document, reference, MAX_CHAIN_LENGTH as nat)
}

/// Whether `result` is a clone of `target`, or nothing where there is no
/// target.
pub open spec fn is_clone_of<T: Clone>(target: Option<T>, result: Option<T>) -> bool {
    match target {
        Some(item) => result matches Some(copy) && cloned::<T>(item, copy),
        None => result is None,
    }
}

/// Generic resolver implementation for all component types.
pub struct GenericResolver<T, G: ComponentGetter<T>>(PhantomData<(T, G)>);

impl<T, G> GenericResolver<T, G> where T: Clone, G: ComponentGetter<T> {
    pub fn new() -> Self {
        GenericResolver(PhantomData)
    }

    /// Resolve `reference` by following at most `hops` pointers.
    pub fn resolve_reference_within(
        &self,
        reference: &str,
        document: &Document,
        hops: usize,
    ) -> (result: Option<T>)
        ensures
            is_clone_of(chain_target::<T, G>(document, reference@, hops as nat), result),
        decreases hops,
    {
        if hops == 0 {
            return None;
        }
        let parts = parse_ref(reference);
        proof {
            assert(segment_views(parts@).len() == parts@.len());
        }
        if parts.len() != 3 {
            return None;
        }
        proof {
            assert(segment_views(parts@)[0] == parts@[0]@);
            assert(segment_views(parts@)[1] == parts@[1]@);
            assert(segment_views(parts@)[2] == parts@[2]@);
        }
        if !same_text(parts[0].as_str(), "components") || !same_text(
            parts[1].as_str(),
            G::component_type(),
        ) {
            return None;
        }
        let components = match &document.components {
            Some(components) => components,
            None => { return None; },
        };
        match G::get_component(components, parts[2].as_str()) {
            Some(ReferenceOr::Item(item)) => Some(item.clone()),
            Some(ReferenceOr::Reference { reference: next }) => self.resolve_reference_within(
                next.as_str(),
                document,
                hops - 1,
            ),
            None => None,
        }
    }
}

impl<T, G> Default for GenericResolver<T, G> where T: Clone, G: ComponentGetter<T> {
    fn default() -> Self {
        Self::new()
    }
}

impl<T, G> OpenApiResolver<T> for GenericResolver<T, G> where T: Clone, G: ComponentGetter<T> {
    /// The result is a clone of the inline value at the end of the chain, or
    /// nothing where the chain breaks or is longer than `MAX_CHAIN_LENGTH`.
    open spec fn resolves(
        &self,
        reference: Seq<char>,
        document: &Document,
        result: Option<T>,
    ) -> bool {
        is_clone_of(resolved_target::<T, G>(document, reference), result)
    }

    fn resolve_reference(&self, reference: &str, document: &Document) -> (result: Option<T>) {
        self.resolve_reference_within(reference, document, MAX_CHAIN_LENGTH)
    }
}

/// Schema component getter.
pub struct SchemaGetter;

impl ComponentGetter<Schema> for SchemaGetter {
    open spec fn segment() -> Seq<char> {
        "schemas"@
    }

    open spec fn table(components: &Components) -> Map<Seq<char>, ReferenceOr<Schema>> {
        schema_entries(components.schemas)
    }

    fn component_type() -> (segment: &'static str) {
        "schemas"
    }

    fn get_component<'a>(components: &'a Components, name: &str) -> (found: Option<
        &'a ReferenceOr<Schema>,
    >) {
        get_schema(&components.schemas, name)
    }
}

/// Response component getter.
pub struct ResponseGetter;

impl ComponentGetter<Response> for ResponseGetter {
    open spec fn segment() -> Seq<char> {
        "responses"@
    }

    open spec fn table(components: &Components) -> Map<Seq<char>, ReferenceOr<Response>> {
        response_entries(components.responses)
    }

    fn component_type() -> (segment: &'static str) {
        "responses"
    }

    fn get_component<'a>(components: &'a Components, name: &str) -> (found: Option<
        &'a ReferenceOr<Response>,
    >) {
        get_response(&components.responses, name)
    }
}

/// Parameter component getter.
pub struct ParameterGetter;

impl ComponentGetter<Parameter> for ParameterGetter {
    open spec fn segment() -> Seq<char> {
        "parameters"@
    }

    open spec fn table(components: &Components) -> Map<Seq<char>, ReferenceOr<Parameter>> {
        parameter_entries(components.parameters)
    }

    fn component_type() -> (segment: &'static str) {
        "parameters"
    }

    fn get_component<'a>(components: &'a Components, name: &str) -> (found: Option<
        &'a ReferenceOr<Parameter>,
    >) {
        get_parameter(&components.parameters, name)
    }
}

/// RequestBody component getter.
pub struct RequestBodyGetter;

impl ComponentGetter<RequestBody> for RequestBodyGetter {
    open spec fn segment() -> Seq<char> {
        "requestBodies"@
    }

    open spec fn table(components: &Components) -> Map<Seq<char>, ReferenceOr<RequestBody>> {
        request_body_entries(components.request_bodies)
    }

    fn component_type() -> (segment: &'static str) {
        "requestBodies"
    }

    fn get_component<'a>(components: &'a Components, name: &str) -> (found: Option<
        &'a ReferenceOr<RequestBody>,
    >) {
        get_request_body(&components.request_bodies, name)
    }
}

/// Example component getter.
pub struct ExampleGetter;

impl ComponentGetter<Example> for ExampleGetter {
    open spec fn segment() -> Seq<char> {
        "examples"@
    }

    open spec fn table(components: &Components) -> Map<Seq<char>, ReferenceOr<Example>> {
        example_entries(components.examples)
    }

    fn component_type() -> (segment: &'static str) {
        "examples"
    }

    fn get_component<'a>(components: &'a Components, name: &str) -> (found: Option<
        &'a ReferenceOr<Example>,
    >) {
        get_example(&components.examples, name)
    }
}

pub type SchemaResolver = GenericResolver<Schema, SchemaGetter>;

pub type ResponseResolver = GenericResolver<Response, ResponseGetter>;

pub type ParameterResolver = GenericResolver<Parameter, ParameterGetter>;

pub type RequestBodyResolver = GenericResolver<RequestBody, RequestBodyGetter>;

pub type ExampleResolver = GenericResolver<Example, ExampleGetter>;

/// The schema that the chain starting at `reference` ends in.
pub open spec fn schema_target(document: &Document, reference: Seq<char>) -> Option<Schema> {
    resolved_target::<Schema, SchemaGetter>(document, reference)
}

/// Resolve a schema reference: the result has the value of the schema that
/// the chain ends in.
pub fn resolve_schema_ref(reference: &str, document: &Document) -> (result: Option<Schema>)
    ensures
        option_model(result) == option_model(schema_target(document, reference@)),
{
    SchemaResolver::new().resolve_reference(reference, document)
}

/// Resolve a response reference: the result is the response that the chain
/// ends in.
pub fn resolve_response_ref(reference: &str, document: &Document) -> (result: Option<Response>)
    ensures
        result == resolved_target::<Response, ResponseGetter>(document, reference@),
{
    ResponseResolver::new().resolve_reference(reference, document)
}

/// Resolve a parameter reference: the result is the parameter that the chain
/// ends in.
pub fn resolve_parameter_ref(reference: &str, document: &Document) -> (result: Option<Parameter>)
    ensures
        result == resolved_target::<Parameter, ParameterGetter>(document, reference@),
{
    ParameterResolver::new().resolve_reference(reference, document)
}

/// Resolve a request body reference: the result is the request body that the
/// chain ends in.
pub fn resolve_request_body_ref(reference: &str, document: &Document) -> (result: Option<
    RequestBody,
>)
    ensures
        result == resolved_target::<RequestBody, RequestBodyGetter>(document, reference@),
{
    RequestBodyResolver::new().resolve_reference(reference, document)
}

/// Resolve an example reference: the result is the example that the chain
/// ends in.
pub fn resolve_example_ref(reference: &str, document: &Document) -> (result: Option<Example>)
    ensures
        result == resolved_target::<Example, ExampleGetter>(document, reference@),
{
    ExampleResolver::new().resolve_reference(reference, document)
}

/// Resolve a `ReferenceOr` of any component type with the given resolver.
pub fn resolve_reference_or<T, R>(
    reference_or: &ReferenceOr<T>,
    document: &Document,
    resolver: &R,
) -> (result: Option<T>) where T: Clone, R: OpenApiResolver<T>
    ensures
        match *reference_or {
            ReferenceOr::Reference { reference } => resolver.resolves(reference@, document, result),
            ReferenceOr::Item(item) => result matches Some(copy) && cloned::<T>(item, copy),
        },
{
    resolver.resolve_reference_or(reference_or, document)
}

} // verus!

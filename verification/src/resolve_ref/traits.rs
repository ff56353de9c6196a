use vstd::prelude::*;
use super::model::{Components, Document, ReferenceOr};
use super::tables::is_entry;

verus! {

/// One category of components: its path segment and its table.
pub trait ComponentGetter<T> {
    /// The path segment that pointers into this category carry.
    spec fn segment() -> Seq<char>;

    /// The category's table, by component name.
    spec fn table(components: &Components) -> Map<Seq<char>, ReferenceOr<T>>;

    /// The path segment used in references (e.g., "schemas", "responses").
    fn component_type() -> (segment: &'static str)
        ensures
            segment@ == Self::segment(),
    ;

    /// Get a component by name from the component table.
    fn get_component<'a>(components: &'a Components, name: &str) -> (found: Option<
        &'a ReferenceOr<T>,
    >)
        ensures
            is_entry(Self::table(components), name@, found),
    ;
}

/// Resolution of pointers to components of type `T`.
pub trait OpenApiResolver<T> {
    /// Whether `result` is an outcome that resolving `reference` in `document`
    /// may have.
    spec fn resolves(&self, reference: Seq<char>, document: &Document, result: Option<T>) -> bool;

    /// Resolve a reference string to the actual component.
    fn resolve_reference(&self, reference: &str, document: &Document) -> (result: Option<T>)
        ensures
            self.resolves(reference@, document, result),
    ;

    /// Resolve either branch: an inline item is cloned, whatever the
    /// document holds; a reference is resolved.
    fn resolve_reference_or(&self, reference_or: &ReferenceOr<T>, document: &Document) -> (result:
        Option<T>) where T: Clone
        ensures
            match *reference_or {
                ReferenceOr::Reference { reference } => self.resolves(reference@, document, result),
                ReferenceOr::Item(item) => result matches Some(copy) && cloned::<T>(item, copy),
            },
    {
        match reference_or {
            ReferenceOr::Reference { reference } => self.resolve_reference(
                reference.as_str(),
                document,
            ),
            ReferenceOr::Item(item) => Some(item.clone()),
        }
    }
}

} // verus!

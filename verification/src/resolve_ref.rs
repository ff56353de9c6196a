//! Reference resolution for API description documents.
//!
//! A pointer such as `#/components/schemas/User` names an entry of the
//! document's component table. The functions of this module follow such
//! pointers, through chains of references, to the inline value they stand for.

pub mod laws;
pub mod model;
pub mod properties;
pub mod resolvers;
pub mod schema;
pub mod tables;
pub mod traits;
pub mod utils;

pub use model::{Components, Document, ReferenceOr, Schema};
pub use properties::PropertyMap;
pub use resolvers::{
    ExampleGetter, ExampleResolver, GenericResolver, ParameterGetter, ParameterResolver,
    RequestBodyGetter, RequestBodyResolver, ResponseGetter, ResponseResolver, SchemaGetter,
    SchemaResolver, MAX_CHAIN_LENGTH,
};
pub use schema::{
    resolve_schema_fully, resolve_schema_list, resolve_schema_within, MAX_NESTING_DEPTH,
};
pub use traits::{ComponentGetter, OpenApiResolver};
pub use utils::{parse_ref, same_text};

pub use resolvers::{
    resolve_example_ref, resolve_parameter_ref, resolve_reference_or, resolve_request_body_ref,
    resolve_response_ref, resolve_schema_ref,
};

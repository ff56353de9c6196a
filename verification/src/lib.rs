//! Resolution of local `$ref` pointers inside an API description document.

pub mod resolve_ref;

use vstd::prelude::*;
use indexmap::IndexMap;
use openapiv3::{Example, Parameter, RequestBody, Response};
use super::model::{ReferenceOr, Schema};

verus! {

/// `indexmap::IndexMap`, a hash map that remembers insertion order.
#[verifier::external_type_specification]
#[verifier::external_body]
#[verifier::reject_recursive_types(K)]
#[verifier::reject_recursive_types(V)]
#[verifier::reject_recursive_types(S)]
pub struct ExIndexMap<K, V, S>(IndexMap<K, V, S>);

/// `openapiv3::Response`, carried through unread.
#[verifier::external_type_specification]
#[verifier::external_body]
pub struct ExResponse(Response);

/// `openapiv3::Parameter`, carried through unread.
#[verifier::external_type_specification]
#[verifier::external_body]
pub struct ExParameter(Parameter);

/// `openapiv3::RequestBody`, carried through unread.
#[verifier::external_type_specification]
#[verifier::external_body]
pub struct ExRequestBody(RequestBody);

/// `openapiv3::Example`, carried through unread.
#[verifier::external_type_specification]
#[verifier::external_body]
pub struct ExExample(Example);

/// `Clone::clone` as `derive` wrote it for `openapiv3::Response`: every field
/// is cloned, so the copy is the same value.
pub assume_specification[ <Response as Clone>::clone ](value: &Response) -> (copy: Response)
    ensures
        copy == *value,
;

/// `Clone::clone` as `derive` wrote it for `openapiv3::Parameter`: every field
/// is cloned, so the copy is the same value.
pub assume_specification[ <Parameter as Clone>::clone ](value: &Parameter) -> (copy: Parameter)
    ensures
        copy == *value,
;

/// `Clone::clone` as `derive` wrote it for `openapiv3::RequestBody`: every
/// field is cloned, so the copy is the same value.
pub assume_specification[ <RequestBody as Clone>::clone ](value: &RequestBody) -> (copy:
    RequestBody)
    ensures
        copy == *value,
;

/// `Clone::clone` as `derive` wrote it for `openapiv3::Example`: every field
/// is cloned, so the copy is the same value.
pub assume_specification[ <Example as Clone>::clone ](value: &Example) -> (copy: Example)
    ensures
        copy == *value,
;

/// What a table of schemas holds, by name.
pub uninterp spec fn schema_entries(m: IndexMap<String, ReferenceOr<Schema>>) -> Map<
    Seq<char>,
    ReferenceOr<Schema>,
>;

/// What a table of responses holds, by name.
pub uninterp spec fn response_entries(m: IndexMap<String, ReferenceOr<Response>>) -> Map<
    Seq<char>,
    ReferenceOr<Response>,
>;

/// What a table of parameters holds, by name.
pub uninterp spec fn parameter_entries(m: IndexMap<String, ReferenceOr<Parameter>>) -> Map<
    Seq<char>,
    ReferenceOr<Parameter>,
>;

/// What a table of request bodies holds, by name.
pub uninterp spec fn request_body_entries(m: IndexMap<String, ReferenceOr<RequestBody>>) -> Map<
    Seq<char>,
    ReferenceOr<RequestBody>,
>;

/// What a table of examples holds, by name.
pub uninterp spec fn example_entries(m: IndexMap<String, ReferenceOr<Example>>) -> Map<
    Seq<char>,
    ReferenceOr<Example>,
>;

/// Whether `found` is what the table `entries` holds under `name`: the stored
/// value where the name is present, nothing where it is not.
pub open spec fn is_entry<T>(
    entries: Map<Seq<char>, ReferenceOr<T>>,
    name: Seq<char>,
    found: Option<&ReferenceOr<T>>,
) -> bool {
    match found {
        Some(entry) => entries.dom().contains(name) && *entry == entries[name],
        None => !entries.dom().contains(name),
    }
}

/// `IndexMap::get` on the schema table: the value stored under `name`.
#[verifier::external_body]
pub(crate) fn get_schema<'a>(m: &'a IndexMap<String, ReferenceOr<Schema>>, name: &str) -> (found:
    Option<&'a ReferenceOr<Schema>>)
    ensures
        is_entry(schema_entries(*m), name@, found),
{
    m.get(name)
}

/// `IndexMap::get` on the response table: the value stored under `name`.
#[verifier::external_body]
pub(crate) fn get_response<'a>(
    m: &'a IndexMap<String, ReferenceOr<Response>>,
    name: &str,
) -> (found: Option<&'a ReferenceOr<Response>>)
    ensures
        is_entry(response_entries(*m), name@, found),
{
    m.get(name)
}

/// `IndexMap::get` on the parameter table: the value stored under `name`.
#[verifier::external_body]
pub(crate) fn get_parameter<'a>(
    m: &'a IndexMap<String, ReferenceOr<Parameter>>,
    name: &str,
) -> (found: Option<&'a ReferenceOr<Parameter>>)
    ensures
        is_entry(parameter_entries(*m), name@, found),
{
    m.get(name)
}

/// `IndexMap::get` on the request body table: the value stored under `name`.
#[verifier::external_body]
pub(crate) fn get_request_body<'a>(
    m: &'a IndexMap<String, ReferenceOr<RequestBody>>,
    name: &str,
) -> (found: Option<&'a ReferenceOr<RequestBody>>)
    ensures
        is_entry(request_body_entries(*m), name@, found),
{
    m.get(name)
}

/// `IndexMap::get` on the example table: the value stored under `name`.
#[verifier::external_body]
pub(crate) fn get_example<'a>(m: &'a IndexMap<String, ReferenceOr<Example>>, name: &str) -> (found:
    Option<&'a ReferenceOr<Example>>)
    ensures
        is_entry(example_entries(*m), name@, found),
{
    m.get(name)
}

} // verus!

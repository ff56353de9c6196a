use vstd::prelude::*;
use indexmap::IndexMap;
use super::model::{ReferenceOr, Schema, SiteModel};
use super::utils::same_text;

verus! {

/// The properties of an object schema: named schema sites, each name once,
/// in the order in which the names were first inserted.
///
/// The sites live in an `indexmap::IndexMap`, which Verus does not look
/// into; `property_entries` names what the map holds.
#[verifier::external_body]
#[derive(Debug, PartialEq)]
pub struct PropertyMap {
    inner: IndexMap<String, ReferenceOr<Schema>>,
}

/// What a property map holds: each name with the value of its site, in
/// insertion order.
pub uninterp spec fn property_entries(m: PropertyMap) -> Seq<(Seq<char>, SiteModel)>;

/// Whether some entry of `entries` has the name `key`.
pub open spec fn has_key(entries: Seq<(Seq<char>, SiteModel)>, key: Seq<char>) -> bool {
    exists|i: int| 0 <= i < entries.len() && (#[trigger] entries[i]).0 == key
}

/// A position of `entries` that has the name `key`, where there is one.
pub open spec fn key_position(entries: Seq<(Seq<char>, SiteModel)>, key: Seq<char>) -> int {
    choose|i: int| 0 <= i < entries.len() && (#[trigger] entries[i]).0 == key
}

/// The entries after `key` is given `value`: a name that is present keeps
/// its position and gets the new value, a new name goes to the end.
pub open spec fn entries_with(
    entries: Seq<(Seq<char>, SiteModel)>,
    key: Seq<char>,
    value: SiteModel,
) -> Seq<(Seq<char>, SiteModel)> {
    if has_key(entries, key) {
        entries.update(key_position(entries, key), (key, value))
    } else {
        entries.push((key, value))
    }
}

/// `IndexMap::new`: the new map holds nothing.
#[verifier::external_body]
fn index_map_new() -> (m: PropertyMap)
    ensures
        property_entries(m) == Seq::<(Seq<char>, SiteModel)>::empty(),
{
    PropertyMap { inner: IndexMap::new() }
}

/// `IndexMap::len`: the number of entries.
#[verifier::external_body]
fn index_map_len(m: &PropertyMap) -> (n: usize)
    ensures
        n == property_entries(*m).len(),
{
    m.inner.len()
}

/// `IndexMap::get_index`: the entry at a position below the length, and
/// nothing at any other. The map keeps each key once, so the key that comes
/// back stands at no other position.
#[verifier::external_body]
fn index_map_get_index(m: &PropertyMap, index: usize) -> (entry: Option<
    (&String, &ReferenceOr<Schema>),
>)
    ensures
        match entry {
            Some((key, site)) => {
                &&& index < property_entries(*m).len()
                &&& key@ == property_entries(*m)[index as int].0
                &&& site@ == property_entries(*m)[index as int].1
                &&& forall|j: int|
                    0 <= j < property_entries(*m).len() && j != index ==> (
                    #[trigger] property_entries(*m)[j]).0 != key@
            },
            None => index >= property_entries(*m).len(),
        },
{
    m.inner.get_index(index)
}

/// `IndexMap::insert`: a key that the map holds keeps its place and gets the
/// new value, and the value it had is returned; a new key is put last and
/// nothing is returned.
#[verifier::external_body]
fn index_map_insert(m: &mut PropertyMap, key: String, value: ReferenceOr<Schema>) -> (previous:
    Option<ReferenceOr<Schema>>)
    ensures
        property_entries(*final(m)) == entries_with(property_entries(*old(m)), key@, value@),
        match previous {
            Some(site) => has_key(property_entries(*old(m)), key@) && site@ == property_entries(
                *old(m),
            )[key_position(property_entries(*old(m)), key@)].1,
            None => !has_key(property_entries(*old(m)), key@),
        },
{
    m.inner.insert(key, value)
}

/// `IndexMap::clone`: the copy holds the same keys in the same order, each
/// with a clone of its value, and a clone of a schema site has the value of
/// the site.
#[verifier::external_body]
fn index_map_clone(m: &PropertyMap) -> (copy: PropertyMap)
    ensures
        property_entries(copy) == property_entries(*m),
{
    PropertyMap { inner: m.inner.clone() }
}

impl Clone for PropertyMap {
    /// A deep copy: the same properties in the same order.
    fn clone(&self) -> (res: Self)
        ensures
            res@ == self@,
    {
        index_map_clone(self)
    }
}

impl View for PropertyMap {
    type V = Seq<(Seq<char>, SiteModel)>;

    open spec fn view(&self) -> Seq<(Seq<char>, SiteModel)> {
        property_entries(*self)
    }
}

impl PropertyMap {
    /// A map without properties.
    pub fn new() -> (m: Self)
        ensures
            m@ == Seq::<(Seq<char>, SiteModel)>::empty(),
    {
        index_map_new()
    }

    /// The number of properties.
    pub fn len(&self) -> (n: usize)
        ensures
            n == self@.len(),
    {
        index_map_len(self)
    }

    /// The property at `index` in insertion order, if there is one. Its name
    /// is the name of no other property.
    pub fn get_index(&self, index: usize) -> (entry: Option<(&String, &ReferenceOr<Schema>)>)
        ensures
            match entry {
                Some((key, site)) => {
                    &&& index < self@.len()
                    &&& (key@, site@) == self@[index as int]
                    &&& forall|j: int|
                        0 <= j < self@.len() && j != index ==> (#[trigger] self@[j]).0 != key@
                },
                None => index >= self@.len(),
            },
    {
        index_map_get_index(self, index)
    }

    /// The site of the property `name`, if there is one.
    pub fn get(&self, name: &str) -> (found: Option<&ReferenceOr<Schema>>)
        ensures
            match found {
                Some(site) => has_key(self@, name@) && site@ == self@[key_position(
                    self@,
                    name@,
                )].1,
                None => !has_key(self@, name@),
            },
    {
        let n = self.len();
        let mut i: usize = 0;
        while i < n
            invariant
                n == self@.len(),
                i <= n,
                forall|j: int| 0 <= j < i ==> (#[trigger] self@[j]).0 != name@,
            decreases n - i,
        {
            match self.get_index(i) {
                Some((key, site)) => {
                    if same_text(key.as_str(), name) {
                        proof {
                            let at = key_position(self@, name@);
                            assert(self@[i as int].0 == name@);
                            assert(at == i);
                        }
                        return Some(site);
                    }
                },
                None => {},
            }
            i = i + 1;
        }
        None
    }

    /// Set the property `name` to `site`. A name that is present keeps its
    /// position; a new name goes last. Returns the site that was replaced.
    pub fn insert(&mut self, name: String, site: ReferenceOr<Schema>) -> (previous: Option<
        ReferenceOr<Schema>,
    >)
        ensures
            final(self)@ == entries_with(old(self)@, name@, site@),
            match previous {
                Some(p) => has_key(old(self)@, name@) && p@ == old(self)@[key_position(
                    old(self)@,
                    name@,
                )].1,
                None => !has_key(old(self)@, name@),
            },
    {
        index_map_insert(self, name, site)
    }
}

} // verus!

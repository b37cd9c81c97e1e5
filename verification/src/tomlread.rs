//! The document-parsing layer: the toml crate parses configuration text,
//! and a small set of trusted declarations states what its values hold.
//!
//! A parsed document is modelled by [`TomlModel`]: the shapes this library
//! reads (strings, arrays, tables) are distinguished, every other TOML
//! value is a `Scalar`.

use vstd::prelude::*;

verus! {

#[verifier::external_type_specification]
#[verifier::external_body]
pub struct ExTomlValue(toml::Value);

#[verifier::external_type_specification]
#[verifier::external_body]
#[verifier::reject_recursive_types(K)]
#[verifier::reject_recursive_types(V)]
pub struct ExTomlMap<K, V>(toml::map::Map<K, V>);

/// The shape of a TOML value, as far as this library reads one.
pub ghost enum TomlModel {
    /// A TOML string
    Str(Seq<char>),
    /// A TOML array
    Arr(Seq<TomlModel>),
    /// A TOML table
    Tbl(Map<Seq<char>, TomlModel>),
    /// Any other TOML value (integer, float, boolean, datetime)
    Scalar,
}

/// What a `toml::Value` holds.
pub uninterp spec fn value_model(v: toml::Value) -> TomlModel;

/// What a `toml::map::Map<String, toml::Value>` (a TOML table) holds.
pub uninterp spec fn table_model(t: toml::map::Map<String, toml::Value>) -> Map<
    Seq<char>,
    TomlModel,
>;

/// What parsing a text as a TOML document yields: `None` when the text is
/// not valid TOML, otherwise the top-level table.
pub uninterp spec fn toml_table_of(s: Seq<char>) -> Option<Map<Seq<char>, TomlModel>>;

/// The models of a sequence of TOML values.
pub open spec fn models_of(vs: Seq<toml::Value>) -> Seq<TomlModel> {
    vs.map_values(|x: toml::Value| value_model(x))
}

/// Relies on `toml::from_str::<toml::Table>`: parses a TOML document, which
/// succeeds exactly on valid TOML text, and depends on the text alone.
#[verifier::external_body]
pub(crate) fn parse_toml_table(s: &str) -> (r: Option<toml::map::Map<String, toml::Value>>)
    ensures
        r is Some <==> toml_table_of(s@) is Some,
        r matches Some(t) ==> Some(table_model(t)) == toml_table_of(s@),
{
    toml::from_str::<toml::Table>(s).ok()
}

/// Relies on `toml::Value::as_str`: `Some` exactly on the `String` variant,
/// returning the held string.
#[verifier::external_body]
pub(crate) fn value_as_str<'a>(v: &'a toml::Value) -> (r: Option<&'a str>)
    ensures
        r is Some <==> value_model(*v) is Str,
        r matches Some(s) ==> value_model(*v) == TomlModel::Str(s@),
{
    v.as_str()
}

/// Relies on `toml::Value::as_array`: `Some` exactly on the `Array` variant,
/// returning the held values.
#[verifier::external_body]
pub(crate) fn value_as_array<'a>(v: &'a toml::Value) -> (r: Option<&'a Vec<toml::Value>>)
    ensures
        r is Some <==> value_model(*v) is Arr,
        r matches Some(a) ==> value_model(*v) == TomlModel::Arr(models_of(a@)),
{
    v.as_array()
}

/// Relies on `toml::Value::as_table`: `Some` exactly on the `Table` variant,
/// returning the held table.
#[verifier::external_body]
pub(crate) fn value_as_table<'a>(v: &'a toml::Value) -> (r: Option<
    &'a toml::map::Map<String, toml::Value>,
>)
    ensures
        r is Some <==> value_model(*v) is Tbl,
        r matches Some(t) ==> value_model(*v) == TomlModel::Tbl(table_model(*t)),
{
    v.as_table()
}

/// Relies on `toml::map::Map::get`: looks a key up in a TOML table.
#[verifier::external_body]
pub(crate) fn table_get<'a>(t: &'a toml::map::Map<String, toml::Value>, key: &str) -> (r: Option<
    &'a toml::Value,
>)
    ensures
        r is Some <==> table_model(*t).contains_key(key@),
        r matches Some(v) ==> table_model(*t).contains_key(key@) && value_model(*v) == table_model(
            *t,
        )[key@],
{
    t.get(key)
}

/// Relies on `toml::map::Map::iter`: yields every entry of the table exactly
/// once, with its key and value.
#[verifier::external_body]
pub(crate) fn table_entries(t: &toml::map::Map<String, toml::Value>) -> (r: Vec<
    (String, toml::Value),
>)
    ensures
        forall|i: int|
            0 <= i < r@.len() ==> #[trigger] table_model(*t).contains_key(r@[i].0@) && value_model(
                r@[i].1,
            ) == table_model(*t)[r@[i].0@],
        forall|i: int, j: int| 0 <= i < j < r@.len() ==> r@[i].0@ != r@[j].0@,
        forall|k: Seq<char>|
            #[trigger] table_model(*t).contains_key(k) ==> exists|i: int|
                0 <= i < r@.len() && r@[i].0@ == k,
{
    t.iter().map(|(k, v)| (k.clone(), v.clone())).collect()
}

} // verus!

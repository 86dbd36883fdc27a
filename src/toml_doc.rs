//! What the library reads of a TOML document, and the calls into `toml` that
//! read it.

use vstd::prelude::*;

verus! {

#[verifier::external_type_specification]
#[verifier::external_body]
#[verifier::reject_recursive_types(K)]
#[verifier::reject_recursive_types(V)]
pub struct ExTomlMap<K, V>(toml::map::Map<K, V>);

#[verifier::external_type_specification]
#[verifier::external_body]
pub struct ExTomlValue(toml::Value);

#[verifier::external_type_specification]
#[verifier::external_body]
pub struct ExTomlError(toml::de::Error);

/// The shape of a TOML value as far as this library reads it.
pub enum TomlTree {
    Str(Seq<char>),
    Table(Map<Seq<char>, TomlTree>),
    /// A number, boolean, date or array.
    Other,
}

/// What a `toml::Value` holds.
pub uninterp spec fn toml_value(v: toml::Value) -> TomlTree;

/// The entries of a `toml::Table`.
pub uninterp spec fn toml_table(t: toml::Table) -> Map<Seq<char>, TomlTree>;

/// The top-level table that `toml::Table::from_str` reads from this text, if
/// it is a TOML document.
pub uninterp spec fn toml_document(text: Seq<char>) -> Option<Map<Seq<char>, TomlTree>>;

/// Relies on `toml::Table`'s `FromStr` (`toml::from_str`): it succeeds exactly
/// on a TOML document, and the table depends on the text alone.
#[verifier::external_body]
pub(crate) fn parse_table(text: &str) -> (r: Result<toml::Table, toml::de::Error>)
    ensures
        r is Ok <==> toml_document(text@) is Some,
        r matches Ok(t) ==> toml_document(text@) == Some(toml_table(t)),
{
    text.parse::<toml::Table>()
}

/// Relies on `toml::map::Map::get`: the value under `key`, if there is one.
#[verifier::external_body]
pub(crate) fn table_entry<'a>(t: &'a toml::Table, key: &str) -> (r: Option<&'a toml::Value>)
    ensures
        r is Some <==> toml_table(*t).contains_key(key@),
        r matches Some(v) ==> toml_value(*v) == toml_table(*t)[key@],
{
    t.get(key)
}

/// Relies on `toml::Value::as_str`: the text of a string value.
pub assume_specification[ toml::Value::as_str ](v: &toml::Value) -> (r: Option<&str>)
    ensures
        match toml_value(*v) {
            TomlTree::Str(s) => r matches Some(x) && x@ == s,
            _ => r is None,
        },
;

/// Relies on `toml::Value::as_table`: the table of a table value.
pub assume_specification[ toml::Value::as_table ](v: &toml::Value) -> (r: Option<&toml::Table>)
    ensures
        match toml_value(*v) {
            TomlTree::Table(m) => r matches Some(t) && toml_table(*t) == m,
            _ => r is None,
        },
;

} // verus!

//! TOML documents, as far as the configuration reads them.
//!
//! Parsing and the table type belong to the `toml` crate. Nothing in this
//! file is proved: each function states what the crate's method does, over a
//! model of tables as sequences of entries in the order the table yields them.

use vstd::prelude::*;

verus! {

/// A TOML value as the configuration sees it: a string, a table, or
/// anything else.
pub enum Item {
    Text(Seq<char>),
    Table(Seq<(Seq<char>, Item)>),
    Other,
}

/// The value stored under `key`, if there is one.
pub open spec fn lookup(entries: Seq<(Seq<char>, Item)>, key: Seq<char>) -> Option<Item>
    decreases entries.len(),
{
    if entries.len() == 0 {
        None
    } else if entries[0].0 == key {
        Some(entries[0].1)
    } else {
        lookup(entries.drop_first(), key)
    }
}

/// `toml::Value`, the crate's representation of any TOML value.
#[verifier::external_type_specification]
#[verifier::external_body]
pub struct ExValue(toml::Value);

/// `toml::map::Map`, the crate's table type; `toml::Table` is such a map
/// from `String` to `toml::Value`.
#[verifier::external_type_specification]
#[verifier::external_body]
#[verifier::reject_recursive_types(K)]
#[verifier::reject_recursive_types(V)]
pub struct ExMap<K, V>(toml::map::Map<K, V>);

/// `toml::de::Error`, the crate's report of a document that is not TOML.
#[verifier::external_type_specification]
#[verifier::external_body]
pub struct ExError(toml::de::Error);

/// What a `toml::Value` holds.
pub uninterp spec fn value_item(value: toml::Value) -> Item;

/// The entries of a table, keys with what their values hold, in the order
/// in which the table yields them.
pub uninterp spec fn table_entries(table: toml::Table) -> Seq<(Seq<char>, Item)>;

/// The top-level entries of the document that a text denotes; nothing for a
/// text that is not TOML.
pub uninterp spec fn document_entries(text: Seq<char>) -> Option<Seq<(Seq<char>, Item)>>;

/// Calls `str::parse::<toml::Table>`, the crate's parser of a whole
/// document. The contract names the result: a table with the entries of the
/// document, or an error where the text is not TOML.
#[verifier::external_body]
pub(crate) fn parse_document(text: &str) -> (r: Result<toml::Table, toml::de::Error>)
    ensures
        match r {
            Ok(table) => document_entries(text@) == Some(table_entries(table)),
            Err(_) => document_entries(text@) is None,
        },
{
    text.parse::<toml::Table>()
}

/// Calls `toml::map::Map::get`: the value stored under `key`, or nothing
/// where the table has no such key.
#[verifier::external_body]
pub(crate) fn table_get<'a>(table: &'a toml::Table, key: &str) -> (r: Option<&'a toml::Value>)
    ensures
        match r {
            Some(value) => lookup(table_entries(*table), key@) == Some(value_item(*value)),
            None => lookup(table_entries(*table), key@) is None,
        },
{
    table.get(key)
}

/// Calls `toml::map::Map::values`: the values of the table, in the order of
/// its entries.
#[verifier::external_body]
pub(crate) fn table_values<'a>(table: &'a toml::Table) -> (values: Vec<&'a toml::Value>)
    ensures
        values@.len() == table_entries(*table).len(),
        forall|i: int|
            0 <= i < values@.len() ==> value_item(*#[trigger] values@[i]) == table_entries(
                *table,
            )[i].1,
{
    table.values().collect()
}

/// Calls `toml::Value::as_str`: the text of a string value, nothing for a
/// value of any other kind.
#[verifier::external_body]
pub(crate) fn value_as_str<'a>(value: &'a toml::Value) -> (r: Option<&'a str>)
    ensures
        match r {
            Some(text) => value_item(*value) == Item::Text(text@),
            None => !(value_item(*value) is Text),
        },
{
    value.as_str()
}

/// Calls `toml::Value::as_table`: the table of a table value, nothing for a
/// value of any other kind.
#[verifier::external_body]
pub(crate) fn value_as_table<'a>(value: &'a toml::Value) -> (r: Option<&'a toml::Table>)
    ensures
        match r {
            Some(table) => value_item(*value) == Item::Table(table_entries(*table)),
            None => !(value_item(*value) is Table),
        },
{
    value.as_table()
}

} // verus!

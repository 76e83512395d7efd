//! Reading string fields out of TOML and JSON manifests.
//!
//! Each reading is named by a function of the manifest's text alone, so that
//! callers can state exactly which field ends up where.
use vstd::prelude::*;

verus! {

/// Name for whether `toml::from_str::<toml::Value>` accepts a text.
pub uninterp spec fn toml_parses(s: Seq<char>) -> bool;

/// Name for whether `serde_json::from_str::<serde_json::Value>` accepts a text.
pub uninterp spec fn json_parses(s: Seq<char>) -> bool;

/// Name for the string at `table.key` of a TOML text, when there is one.
pub uninterp spec fn toml_text_at(doc: Seq<char>, table: Seq<char>, key: Seq<char>) -> Option<
    Seq<char>,
>;

/// Name for the items of the array at `table.key` of a TOML text, each the
/// item's string or nothing for an item of another kind.
pub uninterp spec fn toml_items_at(doc: Seq<char>, table: Seq<char>, key: Seq<char>) -> Option<
    Seq<Option<Seq<char>>>,
>;

/// Name for the string at top-level `key` of a JSON text, when there is one.
pub uninterp spec fn json_text_at(doc: Seq<char>, key: Seq<char>) -> Option<Seq<char>>;

/// Name for the items of the array at top-level `key` of a JSON text, each the
/// item's string or nothing for an item of another kind.
pub uninterp spec fn json_items_at(doc: Seq<char>, key: Seq<char>) -> Option<
    Seq<Option<Seq<char>>>,
>;

/// The views of optional strings.
pub open spec fn opt_views(v: Seq<Option<String>>) -> Seq<Option<Seq<char>>> {
    v.map_values(
        |o: Option<String>|
            match o {
                Some(s) => Some(s@),
                None => None,
            },
    )
}

/// Relies on `toml::from_str::<toml::Value>`: whether the text is TOML.
#[verifier::external_body]
pub(crate) fn is_toml(content: &str) -> (r: bool)
    ensures
        r == toml_parses(content@),
{
    toml::from_str::<toml::Value>(content).is_ok()
}

/// Relies on `serde_json::from_str::<serde_json::Value>`: whether the text is
/// JSON.
#[verifier::external_body]
pub(crate) fn is_json(content: &str) -> (r: bool)
    ensures
        r == json_parses(content@),
{
    serde_json::from_str::<serde_json::Value>(content).is_ok()
}

/// Relies on `toml::from_str::<toml::Value>`, `toml::Value::get` and
/// `toml::Value::as_str`: the string at `table.key`.
#[verifier::external_body]
pub(crate) fn toml_text(content: &str, table: &str, key: &str) -> (r: Option<String>)
    ensures
        match r {
            Some(t) => toml_text_at(content@, table@, key@) == Some(t@),
            None => toml_text_at(content@, table@, key@) is None,
        },
{
    let doc = toml::from_str::<toml::Value>(content).ok()?;
    doc.get(table)?.get(key)?.as_str().map(|s| s.to_string())
}

/// Relies on `toml::from_str::<toml::Value>`, `toml::Value::get`,
/// `toml::Value::as_array` and `toml::Value::as_str`: the array at
/// `table.key`, item by item.
#[verifier::external_body]
pub(crate) fn toml_items(content: &str, table: &str, key: &str) -> (r: Option<Vec<Option<String>>>)
    ensures
        match r {
            Some(v) => toml_items_at(content@, table@, key@) == Some(opt_views(v@)),
            None => toml_items_at(content@, table@, key@) is None,
        },
{
    let doc = toml::from_str::<toml::Value>(content).ok()?;
    let items = doc.get(table)?.get(key)?.as_array()?;
    Some(items.iter().map(|i| i.as_str().map(|s| s.to_string())).collect())
}

/// Relies on `serde_json::from_str::<serde_json::Value>`,
/// `serde_json::Value::get` and `serde_json::Value::as_str`: the string at
/// `key`.
#[verifier::external_body]
pub(crate) fn json_text(content: &str, key: &str) -> (r: Option<String>)
    ensures
        match r {
            Some(t) => json_text_at(content@, key@) == Some(t@),
            None => json_text_at(content@, key@) is None,
        },
{
    let doc = serde_json::from_str::<serde_json::Value>(content).ok()?;
    doc.get(key)?.as_str().map(|s| s.to_string())
}

/// Relies on `serde_json::from_str::<serde_json::Value>`,
/// `serde_json::Value::get`, `serde_json::Value::as_array` and
/// `serde_json::Value::as_str`: the array at `key`, item by item.
#[verifier::external_body]
pub(crate) fn json_items(content: &str, key: &str) -> (r: Option<Vec<Option<String>>>)
    ensures
        match r {
            Some(v) => json_items_at(content@, key@) == Some(opt_views(v@)),
            None => json_items_at(content@, key@) is None,
        },
{
    let doc = serde_json::from_str::<serde_json::Value>(content).ok()?;
    let items = doc.get(key)?.as_array()?;
    Some(items.iter().map(|i| i.as_str().map(|s| s.to_string())).collect())
}

} // verus!

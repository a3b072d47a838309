//! Trusted interface to the `toml` crate.
//!
//! The document text is parsed by `toml` into its generic value tree;
//! everything the library then does with that tree goes through the
//! wrappers below.  A ghost representation ([`TomlRep`]) stands for the
//! contents of a parsed value, so that the verified shape-checking code
//! can be given exact contracts.

use vstd::prelude::*;

verus! {

#[verifier::external_type_specification]
#[verifier::external_body]
#[verifier::reject_recursive_types(K)]
#[verifier::reject_recursive_types(V)]
pub struct ExTomlMap<K, V>(toml::map::Map<K, V>);

#[verifier::external_type_specification]
#[verifier::external_body]
pub struct ExTomlValue(toml::Value);

/// Ghost representation of a parsed TOML value: strings, integers,
/// arrays and tables are modelled exactly; every other kind of value
/// (floats, booleans, datetimes) is `Other`, since the document shape
/// accepted by this library never reads one.
pub enum TomlRep {
    Str(Seq<char>),
    Int(i64),
    Arr(Seq<TomlRep>),
    Tab(Seq<(Seq<char>, TomlRep)>),
    Other,
}

/// What a parsed table holds: its entries as key/representation pairs,
/// in iteration order, keys unique.
pub uninterp spec fn toml_table_rep(t: toml::Table) -> Seq<(Seq<char>, TomlRep)>;

/// What a parsed value holds.
pub uninterp spec fn toml_value_rep(v: toml::Value) -> TomlRep;

/// What parsing a document text yields: `None` when the text is not
/// valid in the document format, otherwise the top-level table's
/// entries.  The result depends on the text alone.
pub uninterp spec fn toml_doc(s: Seq<char>) -> Option<Seq<(Seq<char>, TomlRep)>>;

/// First entry with the given key, if any.
pub open spec fn rep_lookup(entries: Seq<(Seq<char>, TomlRep)>, key: Seq<char>) -> Option<TomlRep>
    decreases entries.len(),
{
    if entries.len() == 0 {
        None
    } else if entries[0].0 == key {
        Some(entries[0].1)
    } else {
        rep_lookup(entries.drop_first(), key)
    }
}

/// Relies on `toml::from_str::<toml::Table>`: parses the text, yielding
/// the top-level table exactly when the text is a valid document; the
/// outcome is a function of the text alone.
#[verifier::external_body]
pub(crate) fn parse_toml_text(s: &str) -> (r: Result<toml::Table, String>)
    ensures
        r is Ok <==> toml_doc(s@) is Some,
        r matches Ok(t) ==> toml_table_rep(t) == toml_doc(s@)->Some_0,
{
    match toml::from_str::<toml::Table>(s) {
        Ok(t) => Ok(t),
        Err(e) => Err(e.to_string()),
    }
}

/// Relies on `toml::map::Map::iter`: yields each entry of the table
/// once, in iteration order; a map's keys are unique.
#[verifier::external_body]
pub(crate) fn table_entries<'a>(t: &'a toml::Table) -> (r: Vec<(String, &'a toml::Value)>)
    ensures
        r@.len() == toml_table_rep(*t).len(),
        forall|i: int|
            0 <= i < r@.len() ==> (#[trigger] r@[i]).0@ == toml_table_rep(*t)[i].0
                && toml_value_rep(*r@[i].1) == toml_table_rep(*t)[i].1,
        forall|i: int, j: int| 0 <= i < j < r@.len() ==> r@[i].0@ != r@[j].0@,
{
    t.iter().map(|(k, v)| (k.clone(), v)).collect()
}

/// Relies on `toml::map::Map::get`: looks the key up in the table; a
/// map's keys are unique, so this is the first (and only) entry with
/// that key.
#[verifier::external_body]
pub(crate) fn table_get<'a>(t: &'a toml::Table, key: &str) -> (r: Option<&'a toml::Value>)
    ensures
        r is Some <==> rep_lookup(toml_table_rep(*t), key@) is Some,
        r matches Some(v) ==> toml_value_rep(*v) == rep_lookup(toml_table_rep(*t), key@)->Some_0,
{
    t.get(key)
}

/// One level of a parsed value, with the payloads of compound values
/// borrowed rather than copied.
pub enum TomlNode<'a> {
    Str(String),
    Int(i64),
    Arr(&'a Vec<toml::Value>),
    Tab(&'a toml::Table),
    Other,
}

/// Relies on the variants of `toml::Value`: a value is exactly one of a
/// string, an integer, an array, a table, or another kind (float,
/// boolean, datetime).
#[verifier::external_body]
pub(crate) fn value_node<'a>(v: &'a toml::Value) -> (r: TomlNode<'a>)
    ensures
        match r {
            TomlNode::Str(s) => toml_value_rep(*v) == TomlRep::Str(s@),
            TomlNode::Int(i) => toml_value_rep(*v) == TomlRep::Int(i),
            TomlNode::Arr(a) => toml_value_rep(*v) matches TomlRep::Arr(els)
                && a@.len() == els.len()
                && forall|i: int|
                    0 <= i < a@.len() ==> toml_value_rep(#[trigger] a@[i]) == els[i],
            TomlNode::Tab(t) => toml_value_rep(*v) matches TomlRep::Tab(es)
                && toml_table_rep(*t) == es,
            TomlNode::Other => toml_value_rep(*v) == TomlRep::Other,
        },
{
    match v {
        toml::Value::String(s) => TomlNode::Str(s.clone()),
        toml::Value::Integer(i) => TomlNode::Int(*i),
        toml::Value::Array(a) => TomlNode::Arr(a),
        toml::Value::Table(t) => TomlNode::Tab(t),
        toml::Value::Float(_) => TomlNode::Other,
        toml::Value::Boolean(_) => TomlNode::Other,
        toml::Value::Datetime(_) => TomlNode::Other,
    }
}

} // verus!

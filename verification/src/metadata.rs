use vstd::prelude::*;
use vstd::string::StringExecFns;

use crate::error::SiteError;
use crate::frontmatter::{fm_split, split_frontmatter};

verus! {

#[verifier::external_type_specification]
#[verifier::external_body]
#[verifier::reject_recursive_types(K)]
#[verifier::reject_recursive_types(V)]
pub struct ExTomlMap<K, V>(toml::map::Map<K, V>);

#[verifier::external_type_specification]
#[verifier::external_body]
pub struct ExTomlValue(toml::Value);

/// The string-valued entries a parsed table holds: each key whose value is a
/// TOML string, mapped to that string.
pub uninterp spec fn table_strs(t: toml::Table) -> Map<Seq<char>, Seq<char>>;

/// What toml's parser makes of a metadata block: `None` where the text is
/// not a well-formed table, otherwise the string-valued entries of the
/// parsed table. A function of the text alone.
pub uninterp spec fn toml_strs_of(s: Seq<char>) -> Option<Map<Seq<char>, Seq<char>>>;

/// Relies on toml's `FromStr for Table` (`str::parse::<toml::Table>`):
/// parsing is deterministic in the text.
#[verifier::external_body]
pub(crate) fn parse_table(s: &str) -> (r: Option<toml::Table>)
    ensures
        r is Some <==> toml_strs_of(s@) is Some,
        r matches Some(t) ==> toml_strs_of(s@) matches Some(m) && table_strs(t) == m,
{
    match s.parse::<toml::Table>() {
        Ok(t) => Some(t),
        Err(_) => None,
    }
}

/// Relies on `toml::map::Map::get` and `toml::Value::as_str`: the result is
/// the string value under `key`, or `None` where the key is absent or its
/// value is not a string.
#[verifier::external_body]
pub(crate) fn table_get_str(t: &toml::Table, key: &str) -> (r: Option<String>)
    ensures
        r is Some <==> table_strs(*t).contains_key(key@),
        r matches Some(v) ==> table_strs(*t)[key@] == v@,
{
    match t.get(key) {
        Some(val) => val.as_str().map(|x| x.to_owned()),
        None => None,
    }
}

/// Relies on `toml::map::Map::insert`, storing a `toml::Value::String`: the
/// entry under `key` is replaced and every other entry is kept.
#[verifier::external_body]
pub(crate) fn table_set_str(t: &mut toml::Table, key: &str, value: &str)
    ensures
        table_strs(*final(t)) == table_strs(*old(t)).insert(key@, value@),
{
    t.insert(key.to_owned(), toml::Value::String(value.to_owned()));
}

/// The detail text reported when the metadata block does not parse.
pub open spec fn unparsed_detail() -> Seq<char> {
    "the frontmatter block does not parse as TOML"@
}

/// Splits a raw document on the frontmatter delimiters and parses the
/// metadata block as a table. Returns the table and the raw, unrendered
/// body; fails with `MalformedDocument` where the delimiter pair is absent
/// and with `InvalidMetadata` where the block does not parse, naming
/// `source` either way.
pub fn parse_frontmatter(raw: &str, source: &str) -> (r: Result<(toml::Table, String), SiteError>)
    ensures
        match r {
            Ok(p) => {
                &&& fm_split(raw@) matches Some(q)
                &&& toml_strs_of(q.0) matches Some(m)
                &&& table_strs(p.0) == m
                &&& p.1@ == q.1
            },
            Err(SiteError::MalformedDocument { source: s2 }) => {
                &&& s2@ == source@
                &&& fm_split(raw@) is None
            },
            Err(SiteError::InvalidMetadata { source: s2, detail }) => {
                &&& s2@ == source@
                &&& fm_split(raw@) matches Some(q)
                &&& toml_strs_of(q.0) is None
                &&& detail@ == unparsed_detail()
            },
            Err(_) => false,
        },
{
    let (meta_text, body) = match split_frontmatter(raw) {
        Some(p) => p,
        None => {
            return Err(SiteError::MalformedDocument { source: source.to_owned() });
        },
    };
    let table = match parse_table(meta_text.as_str()) {
        Some(t) => t,
        None => {
            return Err(
                SiteError::InvalidMetadata {
                    source: source.to_owned(),
                    detail: String::from_str("the frontmatter block does not parse as TOML"),
                },
            );
        },
    };
    Ok((table, body))
}

} // verus!

//! Editor settings: the two keys that point editor tooling at the source and
//! library directories are added where missing, and every other entry,
//! including an existing value for either key, is kept.
use vstd::prelude::*;

verus! {

#[verifier::external_type_specification]
#[verifier::external_body]
#[verifier::reject_recursive_types(K)]
#[verifier::reject_recursive_types(V)]
pub struct ExJsonMap<K, V>(serde_json::Map<K, V>);

#[verifier::external_type_specification]
#[verifier::external_body]
pub struct ExJsonValue(serde_json::Value);

#[verifier::external_type_specification]
#[verifier::external_body]
pub struct ExJsonError(serde_json::Error);

/// The entries of a JSON object, by key.
pub uninterp spec fn entries(m: serde_json::Map<String, serde_json::Value>) -> Map<
    Seq<char>,
    serde_json::Value,
>;

/// The JSON string value holding these characters.
pub uninterp spec fn json_string(s: Seq<char>) -> serde_json::Value;

/// The entries of the JSON object that serde_json reads from this text, or
/// `None` where it does not read the text as an object.
pub uninterp spec fn parse_object(text: Seq<char>) -> Option<Map<Seq<char>, serde_json::Value>>;

/// The indented JSON text of an object with these entries.
pub uninterp spec fn pretty_text(e: Map<Seq<char>, serde_json::Value>) -> Seq<char>;

/// The entries of an empty object.
pub open spec fn no_entries() -> Map<Seq<char>, serde_json::Value> {
    Map::empty()
}

/// The key that names the directory of the project's own sources.
pub open spec fn src_key() -> Seq<char> {
    "solidity.packageDefaultDependenciesContractsDirectory"@
}

/// The key that names the directory of the project's libraries.
pub open spec fn lib_key() -> Seq<char> {
    "solidity.packageDefaultDependenciesDirectory"@
}

/// `e` with `v` under `k`, unless `k` already has a value.
pub open spec fn insert_if_absent(
    e: Map<Seq<char>, serde_json::Value>,
    k: Seq<char>,
    v: serde_json::Value,
) -> Map<Seq<char>, serde_json::Value> {
    if e.contains_key(k) {
        e
    } else {
        e.insert(k, v)
    }
}

/// The settings with both keys present: existing values win.
pub open spec fn with_defaults(e: Map<Seq<char>, serde_json::Value>) -> Map<
    Seq<char>,
    serde_json::Value,
> {
    insert_if_absent(
        insert_if_absent(e, src_key(), json_string("src"@)),
        lib_key(),
        json_string("lib"@),
    )
}

/// The settings that a run starts from: none on disk means an empty object.
pub open spec fn start_entries(existing: Option<&str>) -> Option<
    Map<Seq<char>, serde_json::Value>,
> {
    match existing {
        None => Some(no_entries()),
        Some(t) => parse_object(t@),
    }
}

/// Why the editor settings could not be produced.
#[derive(Debug)]
pub enum SettingsError {
    /// The existing settings are not a JSON object.
    Malformed(serde_json::Error),
}

/// Relies on `serde_json::Map::new`: an empty map.
#[verifier::external_body]
fn json_map_new() -> (m: serde_json::Map<String, serde_json::Value>)
    ensures
        entries(m) == no_entries(),
{
    serde_json::Map::new()
}

/// Relies on `serde_json::Map::contains_key`: whether the key has a value.
#[verifier::external_body]
fn json_contains_key(m: &serde_json::Map<String, serde_json::Value>, k: &str) -> (r: bool)
    ensures
        r == entries(*m).contains_key(k@),
{
    m.contains_key(k)
}

/// Relies on `serde_json::Map::insert`: the key now holds the value, and the
/// other entries stay.
#[verifier::external_body]
fn json_insert(m: &mut serde_json::Map<String, serde_json::Value>, k: String, v: serde_json::Value)
    ensures
        entries(*final(m)) == entries(*old(m)).insert(k@, v),
{
    m.insert(k, v);
}

/// Relies on `serde_json::Value::String`: the string value of `s`.
#[verifier::external_body]
fn json_string_value(s: String) -> (v: serde_json::Value)
    ensures
        v == json_string(s@),
{
    serde_json::Value::String(s)
}

/// Relies on `serde_json::from_str` into a map: the outcome depends on the
/// text alone, and on success the map holds the object's entries.
#[verifier::external_body]
fn json_parse_object(text: &str) -> (r: Result<
    serde_json::Map<String, serde_json::Value>,
    serde_json::Error,
>)
    ensures
        r is Ok <==> parse_object(text@) is Some,
        r matches Ok(m) ==> parse_object(text@) == Some(entries(m)),
{
    serde_json::from_str(text)
}

/// Relies on `serde_json::to_string_pretty` of a map: its text depends on the
/// entries alone, which it writes in key order. It does not fail here: it fails
/// only where a `Serialize` impl fails or a map key is not a string, and a
/// `Map<String, Value>` has string keys and values that always serialize.
#[verifier::external_body]
fn json_to_pretty(m: &serde_json::Map<String, serde_json::Value>) -> (r: Result<
    String,
    serde_json::Error,
>)
    ensures
        r is Ok,
        r matches Ok(s) ==> s@ == pretty_text(entries(*m)),
{
    serde_json::to_string_pretty(m)
}

/// Adds each of the two keys that is missing, with its default directory.
pub fn add_default_settings(m: &mut serde_json::Map<String, serde_json::Value>)
    ensures
        entries(*final(m)) == with_defaults(entries(*old(m))),
{
    let src = "solidity.packageDefaultDependenciesContractsDirectory";
    if !json_contains_key(m, src) {
        json_insert(m, String::from_str(src), json_string_value(String::from_str("src")));
    }
    let lib = "solidity.packageDefaultDependenciesDirectory";
    if !json_contains_key(m, lib) {
        json_insert(m, String::from_str(lib), json_string_value(String::from_str("lib")));
    }
}

/// The content of the settings file: the existing settings, if any, with the
/// missing keys added. Existing settings that are not a JSON object are an
/// error, so that nothing of the user's is discarded.
pub fn editor_settings(existing: Option<&str>) -> (r: Result<String, SettingsError>)
    ensures
        r is Ok <==> start_entries(existing) is Some,
        r matches Err(SettingsError::Malformed(_)) <==> start_entries(existing) is None,
        r matches Ok(s) ==> s@ == pretty_text(
            with_defaults(start_entries(existing)->Some_0),
        ),
{
    let mut m = match existing {
        None => json_map_new(),
        Some(t) => match json_parse_object(t) {
            Ok(m) => m,
            Err(e) => return Err(SettingsError::Malformed(e)),
        },
    };
    add_default_settings(&mut m);
    match json_to_pretty(&m) {
        Ok(s) => Ok(s),
        Err(e) => {
            assert(false);
            Err(SettingsError::Malformed(e))
        },
    }
}

/// An existing value for either key survives the merge, and a missing key is
/// added with its default.
pub proof fn existing_settings_preserved(e: Map<Seq<char>, serde_json::Value>)
    ensures
        e.contains_key(lib_key()) ==> with_defaults(e)[lib_key()] == e[lib_key()],
        e.contains_key(src_key()) ==> with_defaults(e)[src_key()] == e[src_key()],
        !e.contains_key(src_key()) ==> with_defaults(e)[src_key()] == json_string("src"@),
        !e.contains_key(lib_key()) ==> with_defaults(e)[lib_key()] == json_string("lib"@),
        forall|k: Seq<char>|
            k != src_key() && k != lib_key() ==> (#[trigger] with_defaults(e).contains_key(k)
                == e.contains_key(k) && (e.contains_key(k) ==> with_defaults(e)[k] == e[k])),
        e.contains_key(lib_key()) && !e.contains_key(src_key()) ==> with_defaults(e) == e.insert(
            src_key(),
            json_string("src"@),
        ),
{
    reveal_strlit("solidity.packageDefaultDependenciesContractsDirectory");
    reveal_strlit("solidity.packageDefaultDependenciesDirectory");
    assert(src_key() != lib_key()) by {
        assert(src_key().len() != lib_key().len());
    }
}

} // verus!

//! Reading the target version out of a project manifest (`pubspec.yaml`).
use vstd::prelude::*;
use vstd::string::*;
use crate::probe::opt_view;

verus! {

#[verifier::external_type_specification]
#[verifier::external_body]
pub struct ExYamlValue(serde_yaml::Value);

/// The document that `serde_yaml::from_str` reads from `text`, if it is
/// one YAML document.
pub uninterp spec fn yaml_parse(text: Seq<char>) -> Option<serde_yaml::Value>;

/// The entry under `key` of a YAML mapping, as `serde_yaml::Value::get`
/// finds it.
pub uninterp spec fn yaml_get(v: serde_yaml::Value, key: Seq<char>) -> Option<serde_yaml::Value>;

/// The text of a YAML string, as `serde_yaml::Value::as_str` gives it.
pub uninterp spec fn yaml_str(v: serde_yaml::Value) -> Option<Seq<char>>;

/// Relies on serde_yaml::from_str into a `serde_yaml::Value`: the result
/// depends on the text alone.
#[verifier::external_body]
fn yaml_from_str(text: &str) -> (r: Option<serde_yaml::Value>)
    ensures
        r == yaml_parse(text@),
{
    serde_yaml::from_str::<serde_yaml::Value>(text).ok()
}

/// Relies on serde_yaml::Value::get with a string index: the entry of a
/// mapping under that key, if the value is a mapping that has one.
#[verifier::external_body]
fn yaml_entry(v: &serde_yaml::Value, key: &str) -> (r: Option<serde_yaml::Value>)
    ensures
        r == yaml_get(*v, key@),
{
    v.get(key).cloned()
}

/// Relies on serde_yaml::Value::as_str: the text of a string value.
#[verifier::external_body]
fn yaml_text(v: &serde_yaml::Value) -> (r: Option<String>)
    ensures
        match r {
            Some(t) => yaml_str(*v) == Some(t@),
            None => yaml_str(*v).is_none(),
        },
{
    v.as_str().map(String::from)
}

/// The text under `environment`, then `flutter`, in the manifest `text`;
/// none where it is no YAML document, lacks either key, or holds something
/// else than text there.
pub open spec fn manifest_version(text: Seq<char>) -> Option<Seq<char>> {
    match yaml_parse(text) {
        Some(doc) => match yaml_get(doc, "environment"@) {
            Some(env) => match yaml_get(env, "flutter"@) {
                Some(v) => yaml_str(v),
                None => None,
            },
            None => None,
        },
        None => None,
    }
}

/// The version that a manifest asks for.
pub fn project_version_from_manifest(text: &str) -> (r: Option<String>)
    ensures
        opt_view(r) == manifest_version(text@),
{
    let doc = yaml_from_str(text);
    match doc {
        None => None,
        Some(doc) => {
            match yaml_entry(&doc, "environment") {
                None => None,
                Some(env) => {
                    match yaml_entry(&env, "flutter") {
                        None => None,
                        Some(v) => yaml_text(&v),
                    }
                },
            }
        },
    }
}

} // verus!

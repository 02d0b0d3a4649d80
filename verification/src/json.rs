//! Trusted interface to `serde_json`, the one outside crate the parsers
//! lean on. What a JSON lookup returns is a function of the document text
//! alone, but stating it exactly would amount to writing out a JSON
//! grammar; each lookup therefore gets an uninterpreted name that the
//! callers' contracts are phrased over.

use vstd::prelude::*;

verus! {

/// What looking up `key` inside the object member `outer` of the JSON
/// document `doc` returns: the member's string value as-is, its JSON
/// serialization when it is not a string, or nothing when `doc` does not
/// parse or the members are absent.
pub uninterp spec fn json_member_of(doc: Seq<char>, outer: Seq<char>, key: Seq<char>) -> Option<
    Seq<char>,
>;

/// Looks `key` up inside the `outer` object member of the JSON document
/// `doc`.
///
/// Relies on `serde_json::from_str`, `serde_json::Value::get`,
/// `serde_json::Value::as_str` and the `Display` serialization of
/// `serde_json::Value`: parsing a document and reading one member depend
/// on the argument text alone.
#[verifier::external_body]
pub fn json_member_lookup(doc: &str, outer: &str, key: &str) -> (r: Option<String>)
    ensures
        match r {
            Some(s) => json_member_of(doc@, outer@, key@) == Some(s@),
            None => json_member_of(doc@, outer@, key@) is None,
        },
{
    let parsed: serde_json::Value = match serde_json::from_str(doc) {
        Ok(v) => v,
        Err(_) => return None,
    };
    let member = match parsed.get(outer).and_then(|o| o.get(key)) {
        Some(m) => m,
        None => return None,
    };
    match member.as_str() {
        Some(s) => Some(s.to_string()),
        None => Some(member.to_string()),
    }
}

/// What reading `<results_key>[0].<packages_key>[0].<version_key>` out of
/// the JSON document `doc` returns, or nothing when `doc` does not parse,
/// a member is absent, or the field is not a string.
pub uninterp spec fn first_package_version_of(
    doc: Seq<char>,
    results_key: Seq<char>,
    packages_key: Seq<char>,
    version_key: Seq<char>,
) -> Option<Seq<char>>;

/// Reads the version field of the first package of the first search
/// result out of the JSON document `doc`.
///
/// Relies on `serde_json::from_str`, `serde_json::Value::get` (on object
/// members and on index 0 of arrays) and `serde_json::Value::as_str`: the
/// lookup depends on the argument text alone.
#[verifier::external_body]
pub fn json_first_package_version(
    doc: &str,
    results_key: &str,
    packages_key: &str,
    version_key: &str,
) -> (r: Option<String>)
    ensures
        match r {
            Some(s) => first_package_version_of(doc@, results_key@, packages_key@, version_key@)
                == Some(s@),
            None => first_package_version_of(doc@, results_key@, packages_key@, version_key@)
                is None,
        },
{
    let parsed: serde_json::Value = match serde_json::from_str(doc) {
        Ok(v) => v,
        Err(_) => return None,
    };
    let field = parsed.get(results_key)?.get(0)?.get(packages_key)?.get(0)?.get(version_key)?;
    Some(field.as_str()?.to_string())
}

} // verus!

//! The field validators: each one accepts a raw answer string and returns the
//! typed value or a descriptive rejection, with an exact acceptance condition.
use vstd::prelude::*;

use crate::text::{
    after_last, all_name_chars, ends_with, split_after_last, str_ends_with, str_eq, valid_name,
};

verus! {

/// The reserved source value that terminates the module-collection loop.
pub open spec fn is_sentinel(s: Seq<char>) -> bool {
    s == "none"@
}

/// A valid module source: the sentinel, or a path ending in ".wasm".
pub open spec fn valid_source(s: Seq<char>) -> bool {
    is_sentinel(s) || ends_with(s, ".wasm"@)
}

/// A valid command list: empty (no commands), or a valid identifier list.
pub open spec fn valid_commands(s: Seq<char>) -> bool {
    s.len() == 0 || valid_name(s)
}

/// Accepts exactly the non-empty strings made of identifier characters
/// (letters, digits, '-', '_' and ' ') and returns them unchanged.
pub fn validate_name(name: &str) -> (r: Result<String, String>)
    ensures
        r is Ok <==> valid_name(name@),
        r matches Ok(v) ==> v@ == name@,
{
    if name.is_empty() {
        return Err(String::from_str("Name cannot be empty"));
    }
    if !all_name_chars(name) {
        return Err(
            String::from_str("Name can only contain letters, digits, '-', '_' and spaces"),
        );
    }
    Ok(name.to_owned())
}

/// Accepts license identifiers by the same syntactic rule as names.
pub fn validate_license(license: &str) -> (r: Result<String, String>)
    ensures
        r is Ok <==> valid_name(license@),
        r matches Ok(v) ==> v@ == license@,
{
    validate_name(license)
}

/// Accepts exactly the sentinel "none" and strings ending in ".wasm", and
/// returns them unchanged; everything else is rejected with a fixed message
/// naming the required extension.
pub fn validate_wasm_source(source: &str) -> (r: Result<String, String>)
    ensures
        r is Ok <==> valid_source(source@),
        r matches Ok(v) ==> v@ == source@,
        r matches Err(m) ==> m@ == "The module source path must have a .wasm extension"@,
{
    if str_eq(source, "none") || str_ends_with(source, ".wasm") {
        return Ok(source.to_owned());
    }
    Err(String::from_str("The module source path must have a .wasm extension"))
}

/// Accepts the empty string (no commands) and identifier lists, unchanged.
pub fn validate_commands(command_names: &str) -> (r: Result<String, String>)
    ensures
        r is Ok <==> valid_commands(command_names@),
        r matches Ok(v) ==> v@ == command_names@,
{
    if command_names.is_empty() {
        return Ok(command_names.to_owned());
    }
    validate_name(command_names)
}

/// The canonical rendering of a semantic-version string, or `None` where the
/// string does not parse as one. The grammar and the rendering belong to the
/// semver crate; only the facts stated of the trusted wrapper below are known
/// of this function.
pub uninterp spec fn normalized_version(s: Seq<char>) -> Option<Seq<char>>;

/// Relies on semver::Version::parse and semver's Display implementation: both
/// depend on the input characters alone, and a parsed version renders to the
/// canonical form, which parses back to the same version; the rejection
/// carries the parser's message.
#[verifier::external_body]
fn parse_normalize_version(s: &str) -> (r: Result<String, String>)
    ensures
        r is Ok <==> normalized_version(s@) is Some,
        r matches Ok(v) ==> normalized_version(s@) == Some(v@),
        r matches Ok(v) ==> normalized_version(v@) == Some(v@),
{
    match semver::Version::parse(s) {
        Ok(v) => Ok(v.to_string()),
        Err(e) => Err(e.to_string()),
    }
}

/// Accepts exactly the strings that parse as a semantic version and returns
/// the canonical rendering, which re-validates to itself unchanged.
pub fn validate_version(s: &str) -> (r: Result<String, String>)
    ensures
        r is Ok <==> normalized_version(s@) is Some,
        r matches Ok(v) ==> normalized_version(s@) == Some(v@),
        r matches Ok(v) ==> normalized_version(v@) == Some(v@),
{
    parse_normalize_version(s)
}

/// The default module name derived from an accepted non-sentinel source: the
/// part after the last '/' with the trailing extension removed, except that a
/// bare ".wasm" file name keeps its name whole.
pub open spec fn derived_name(source: Seq<char>) -> Seq<char> {
    let name = after_last(source, '/');
    if name.len() > 5 {
        name.take(name.len() - 5)
    } else {
        name
    }
}

/// Derives the default module name from an accepted non-sentinel source path.
pub fn derive_module_name(source: &str) -> (r: String)
    requires
        valid_source(source@),
        !is_sentinel(source@),
    ensures
        r@ == derived_name(source@),
{
    let name = split_after_last(source, '/');
    let len = name.as_str().unicode_len();
    if len > 5 {
        let r = name.as_str().substring_char(0, len - 5).to_owned();
        proof {
            assert(name@.take(name@.len() - 5) =~= name@.subrange(0, len - 5));
        }
        r
    } else {
        name
    }
}

} // verus!

//! Checking that profile content is well-formed TOML.

use vstd::prelude::*;

verus! {

/// The message `toml_edit` gives for `content` when it does not parse as a TOML
/// document (`None` when it does): the `Display` text of its `TomlError`.
pub uninterp spec fn toml_parse_error(content: Seq<char>) -> Option<Seq<char>>;

/// Validate TOML content, returning the parser's error message if it is invalid.
///
/// Trusted: parses `content` as a `toml_edit::DocumentMut`; the result is `Ok` exactly
/// when `toml_parse_error` of the text is `None`, and an error carries that message.
/// Which texts parse is left to `toml_edit` and not stated here.
#[verifier::external_body]
pub fn validate_toml(content: &str) -> (r: Result<(), String>)
    ensures
        r is Ok <==> toml_parse_error(content@) is None,
        r matches Err(m) ==> toml_parse_error(content@) == Some(m@),
{
    match content.parse::<toml_edit::DocumentMut>() {
        Ok(_) => Ok(()),
        Err(e) => Err(e.to_string()),
    }
}

} // verus!

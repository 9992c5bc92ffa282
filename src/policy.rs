use vstd::prelude::*;

use crate::error::LaunchError;

verus! {

/// The compact JSON text of the YAML (or JSON) document `text`, or `None`
/// where it does not parse or holds a mapping key that JSON cannot write as
/// a string (a null, a sequence or a mapping).
pub uninterp spec fn yaml_json_text(text: Seq<char>) -> Option<Seq<char>>;

/// Relies on `serde_yaml::from_str` into a generic `serde_yaml::Value` and on
/// `serde_json::to_string` of that value: the outcome depends on the text alone.
#[verifier::external_body]
fn yaml_to_json(text: &str) -> (r: Option<String>)
    ensures
        r is Some <==> yaml_json_text(text@) is Some,
        r matches Some(s) ==> yaml_json_text(text@) == Some(s@),
{
    let value: serde_yaml::Value = serde_yaml::from_str(text).ok()?;
    serde_json::to_string(&value).ok()
}

/// How the text of an inline policy file becomes the policy sent.
#[derive(Clone, Copy, Debug, PartialEq, Eq, Structural)]
pub enum PolicyFormat {
    /// The file holds JSON, sent unchanged.
    RawJson,
    /// The file holds YAML or JSON, parsed and written out again as JSON.
    YamlToJson,
}

/// The policy text sent for a file holding `text`, or `None` where it is malformed.
pub open spec fn policy_text(format: PolicyFormat, text: Seq<char>) -> Option<Seq<char>> {
    match format {
        PolicyFormat::RawJson => Some(text),
        PolicyFormat::YamlToJson => yaml_json_text(text),
    }
}

/// The inline policy sent for the file at `path` whose text is `text`.
pub fn policy_document(format: PolicyFormat, path: &str, text: String) -> (r: Result<
    String,
    LaunchError,
>)
    ensures
        r is Ok <==> policy_text(format, text@) is Some,
        r matches Ok(doc) ==> policy_text(format, text@) == Some(doc@),
        r matches Err(e) ==> (e matches LaunchError::PolicyMalformed { path: p } && p@ == path@),
{
    match format {
        PolicyFormat::RawJson => Ok(text),
        PolicyFormat::YamlToJson => match yaml_to_json(text.as_str()) {
            Some(doc) => Ok(doc),
            None => Err(LaunchError::PolicyMalformed { path: path.to_owned() }),
        },
    }
}

} // verus!

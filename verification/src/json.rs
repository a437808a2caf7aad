//! What this library reads from a JSON document, and the calls into
//! `serde_json` that read it. Nothing in this file is proved: each contract
//! states what the outside function does.

use vstd::prelude::*;

verus! {

/// `serde_json::Value`, a parsed JSON document. The proofs see nothing
/// inside it but what `json_members` names.
#[verifier::external_type_specification]
#[verifier::external_body]
pub struct ExJsonValue(serde_json::Value);

/// The members of a JSON document by name. A document that is an object has
/// one entry for each of its members: `Some` of the member's text where the
/// member is a string, `None` where it is anything else. A document that is
/// no object has no entry.
pub uninterp spec fn json_members(doc: serde_json::Value) -> Map<Seq<char>, Option<Seq<char>>>;

/// What `serde_json` makes of a text: `None` where the text is no JSON
/// document, else the members of the document that it is.
pub uninterp spec fn json_parse(text: Seq<char>) -> Option<Map<Seq<char>, Option<Seq<char>>>>;

/// `serde_json::from_str` at the type `serde_json::Value`, its error dropped.
/// The contract claims that the outcome depends on the text alone: it is
/// `Some` exactly where `json_parse` is, and the document then has the
/// members that `json_parse` names.
#[verifier::external_body]
pub(crate) fn parse_json(text: &str) -> (doc: Option<serde_json::Value>)
    ensures
        match doc {
            Some(d) => json_parse(text@) == Some(json_members(d)),
            None => json_parse(text@) is None,
        },
{
    serde_json::from_str::<serde_json::Value>(text).ok()
}

/// `serde_json::Value::get` with a name, and `serde_json::Value::as_str` on
/// the member that it finds. The contract claims that the outer `Option` says
/// whether the document has a member of that name, and the inner one holds
/// the member's text where the member is a string.
#[verifier::external_body]
pub(crate) fn json_text_member<'a>(doc: &'a serde_json::Value, name: &str) -> (found: Option<
    Option<&'a str>,
>)
    ensures
        match found {
            Some(Some(text)) => json_members(*doc).dom().contains(name@) && json_members(
                *doc,
            )[name@] == Some(text@),
            Some(None) => json_members(*doc).dom().contains(name@) && json_members(
                *doc,
            )[name@] is None,
            None => !json_members(*doc).dom().contains(name@),
        },
{
    doc.get(name).map(|member| member.as_str())
}

} // verus!

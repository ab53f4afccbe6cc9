//! The health-check endpoint's payload: a fixed JSON object with a `status`
//! field of `"success"` and a fixed, non-empty `message` field.

use vstd::prelude::*;
use vstd::string::StrSliceExecFns;
use vstd::string::StringExecFns;

verus! {

/// The fixed message the health-check endpoint reports.
pub open spec fn spec_health_message() -> Seq<char> {
    "Building a Full-stack SPA demo using Solidjs, TypeScript, and Tailwindcss. Backend by Rust/Axum."@
}

/// Holds when a string can stand inside a JSON string literal with no
/// escaping: no quote, no backslash, no control character.
pub open spec fn json_plain(s: Seq<char>) -> bool {
    forall|i: int| 0 <= i < s.len() ==> s[i] != '"' && s[i] != '\\' && s[i] as u32 >= 0x20
}

/// A JSON string literal around a string that needs no escaping.
pub open spec fn json_string(s: Seq<char>) -> Seq<char> {
    "\""@ + s + "\""@
}

/// A JSON object of exactly two string members, in the given order.
pub open spec fn json_two_member_object(
    k1: Seq<char>,
    v1: Seq<char>,
    k2: Seq<char>,
    v2: Seq<char>,
) -> Seq<char> {
    "{"@ + json_string(k1) + ":"@ + json_string(v1) + ","@ + json_string(k2) + ":"@ + json_string(
        v2,
    ) + "}"@
}

/// The health-check response body, character for character.
pub open spec fn spec_health_body() -> Seq<char> {
    json_two_member_object("status"@, "success"@, "message"@, spec_health_message())
}

/// The fixed message the health-check endpoint reports.
pub fn health_message() -> (r: &'static str)
    ensures
        r@ == spec_health_message(),
{
    "Building a Full-stack SPA demo using Solidjs, TypeScript, and Tailwindcss. Backend by Rust/Axum."
}

/// Builds the health-check response body. The result is pinned character for
/// character, so every request receives the identical payload.
pub fn health_body() -> (r: String)
    ensures
        r@ == spec_health_body(),
{
    let mut b = String::from_str("{");
    b.append("\"");
    b.append("status");
    b.append("\"");
    b.append(":");
    b.append("\"");
    b.append("success");
    b.append("\"");
    b.append(",");
    b.append("\"");
    b.append("message");
    b.append("\"");
    b.append(":");
    b.append("\"");
    b.append(health_message());
    b.append("\"");
    b.append("}");
    proof {
        assert(b@ =~= spec_health_body());
    }
    b
}

/// The health-check body is the JSON object whose `status` member is
/// `"success"` and whose `message` member is the fixed, non-empty message;
/// every string in it stands in its literal unescaped, so the body is
/// well-formed JSON.
pub proof fn lemma_health_body_well_formed()
    ensures
        spec_health_body() == json_two_member_object(
            "status"@,
            "success"@,
            "message"@,
            spec_health_message(),
        ),
        spec_health_message().len() > 0,
        json_plain("status"@),
        json_plain("success"@),
        json_plain("message"@),
        json_plain(spec_health_message()),
{
    reveal_strlit("status");
    reveal_strlit("success");
    reveal_strlit("message");
    reveal_strlit(
        "Building a Full-stack SPA demo using Solidjs, TypeScript, and Tailwindcss. Backend by Rust/Axum.",
    );
}

} // verus!

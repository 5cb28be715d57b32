//! The backend-reserved field names and the collision-avoidance rule: a user
//! field whose name matches a reserved word is stored under a `tracing.`
//! prefix, so it can never collide with a backend-computed key.

use vstd::prelude::*;
use vstd::string::StringExecFns;
use crate::text::str_eq;

verus! {

/// Whether a field name is one of the backend-reserved words.
pub open spec fn is_reserved(s: Seq<char>) -> bool {
    ||| s == "trace.span_id"@
    ||| s == "trace.trace_id"@
    ||| s == "trace.parent_id"@
    ||| s == "service_name"@
    ||| s == "level"@
    ||| s == "Timestamp"@
    ||| s == "name"@
    ||| s == "target"@
    ||| s == "duration_ms"@
}

/// The name under which a user field is stored: a reserved name moves under
/// the `tracing.` prefix, any other name is kept as it is.
pub open spec fn stored_name(s: Seq<char>) -> Seq<char> {
    if is_reserved(s) {
        "tracing."@ + s
    } else {
        s
    }
}

/// Whether a field name is reserved.
fn is_reserved_name(s: &str) -> (r: bool)
    ensures
        r == is_reserved(s@),
{
    str_eq(s, "trace.span_id") || str_eq(s, "trace.trace_id") || str_eq(s, "trace.parent_id")
        || str_eq(s, "service_name") || str_eq(s, "level") || str_eq(s, "Timestamp") || str_eq(
        s,
        "name",
    ) || str_eq(s, "target") || str_eq(s, "duration_ms")
}

/// Applies the collision-avoidance rule to a user-supplied field name.
pub fn mk_field_name(s: String) -> (r: String)
    ensures
        r@ == stored_name(s@),
{
    if is_reserved_name(s.as_str()) {
        String::from_str("tracing.").concat(s.as_str())
    } else {
        s
    }
}

/// No reserved word starts with `tracing.`: they differ from any prefixed
/// name in length or within the first eight characters.
proof fn lemma_prefixed_not_reserved(s: Seq<char>)
    ensures
        !is_reserved("tracing."@ + s),
{
    reveal_strlit("tracing.");
    reveal_strlit("trace.span_id");
    reveal_strlit("trace.trace_id");
    reveal_strlit("trace.parent_id");
    reveal_strlit("service_name");
    reveal_strlit("level");
    reveal_strlit("Timestamp");
    reveal_strlit("name");
    reveal_strlit("target");
    reveal_strlit("duration_ms");
    let t = "tracing."@ + s;
    assert(t.len() >= 8);
    assert(t[0] == 't');
    assert(t[5] == 'n');
    assert("trace.span_id"@[5] == '.');
    assert("trace.trace_id"@[5] == '.');
    assert("trace.parent_id"@[5] == '.');
    assert("service_name"@[0] == 's');
    assert("Timestamp"@[0] == 'T');
    assert("duration_ms"@[0] == 'd');
    assert(("level"@).len() == 5);
    assert(("name"@).len() == 4);
    assert(("target"@).len() == 6);
}

/// A stored name is never itself a reserved word, so the map a collector
/// builds holds no bare reserved key.
pub proof fn lemma_stored_name_not_reserved(s: Seq<char>)
    ensures
        !is_reserved(stored_name(s)),
{
    if is_reserved(s) {
        lemma_prefixed_not_reserved(s);
    }
}

/// A field name outside the reserved set is stored under itself, unchanged.
pub proof fn lemma_nonreserved_name_kept(s: Seq<char>)
    requires
        !is_reserved(s),
    ensures
        stored_name(s) == s,
{
}

/// A reserved field name is stored under the `tracing.` prefix and never
/// under the bare reserved name itself.
pub proof fn lemma_reserved_name_prefixed(s: Seq<char>)
    requires
        is_reserved(s),
    ensures
        stored_name(s) == "tracing."@ + s,
        stored_name(s) != s,
{
    reveal_strlit("tracing.");
    assert(("tracing."@ + s).len() == s.len() + 8);
}

} // verus!

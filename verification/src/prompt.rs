use vstd::prelude::*;

use vstd::string::StringExecFns;

verus! {

/// The needle occurs in the haystack at position `i`.
pub open spec fn is_match_at(hay: Seq<char>, needle: Seq<char>, i: int) -> bool {
    0 <= i && i + needle.len() <= hay.len() && hay.subrange(i, i + needle.len()) == needle
}

/// A screen header: the context's fixed prefix followed by the text of
/// whatever the context references.
pub fn compose_prompt(prefix: &str, reference: &str) -> (r: String)
    ensures
        r@ == prefix@ + reference@,
{
    let mut out = String::from_str(prefix);
    out.append(reference);
    out
}

/// A sequence is a prefix of itself followed by any tail.
pub proof fn lemma_concat_prefix(prefix: Seq<char>, rest: Seq<char>)
    ensures
        prefix.is_prefix_of(prefix + rest),
{
    assert(prefix =~= (prefix + rest).subrange(0, prefix.len() as int));
}

/// A sequence is a prefix of itself.
pub proof fn lemma_self_prefix(s: Seq<char>)
    ensures
        s.is_prefix_of(s),
{
    assert(s =~= s.subrange(0, s.len() as int));
}

/// A prompt built as prefix-then-reference contains the referenced text
/// exactly once: it occurs right after the prefix, and nowhere else, as
/// long as it does not also occur inside the label starting earlier.
pub proof fn lemma_prompt_contains_reference_once(prefix: Seq<char>, text: Seq<char>)
    requires
        text.len() > 0,
        forall|j: int| 0 <= j < prefix.len() ==> !is_match_at(prefix + text, text, j),
    ensures
        is_match_at(prefix + text, text, prefix.len() as int),
        forall|j: int| is_match_at(prefix + text, text, j) ==> j == prefix.len(),
{
    let hay = prefix + text;
    assert(hay.subrange(prefix.len() as int, (prefix.len() + text.len()) as int) =~= text);
    assert forall|j: int| is_match_at(hay, text, j) implies j == prefix.len() by {
        if j < prefix.len() {
            assert(!is_match_at(hay, text, j));
        }
    }
}

} // verus!

//! The decision core: a family name mapped to a verdict.
use vstd::prelude::*;

use crate::protocol::Validity;
use crate::text::same_text;

verus! {

/// The verdict for a browser family: Safari is invalid, Firefox is valid,
/// and every other family, known or not, is unknown.
pub open spec fn validity_of_family(family: Seq<char>) -> Validity {
    if family == "Safari"@ {
        Validity::Invalid
    } else if family == "Firefox"@ {
        Validity::Valid
    } else {
        Validity::Unknown
    }
}

/// Maps a family name to its verdict; the comparison is exact and
/// case-sensitive.
pub fn classify(family: &str) -> (r: Validity)
    ensures
        r == validity_of_family(family@),
{
    if same_text(family, "Safari") {
        Validity::Invalid
    } else if same_text(family, "Firefox") {
        Validity::Valid
    } else {
        Validity::Unknown
    }
}

} // verus!

verus! {

/// A family named exactly "Safari" is invalid, one named exactly "Firefox"
/// is valid, and every other family is unknown.
pub proof fn lemma_family_verdicts(family: Seq<char>)
    ensures
        family == "Safari"@ ==> validity_of_family(family) == Validity::Invalid,
        family == "Firefox"@ ==> validity_of_family(family) == Validity::Valid,
        family != "Safari"@ && family != "Firefox"@ ==> validity_of_family(family)
            == Validity::Unknown,
{
    reveal_strlit("Safari");
    reveal_strlit("Firefox");
    assert("Safari"@[0] != "Firefox"@[0]);
}

/// The empty name, "Chrome", "Opera" and a name that differs from "Safari"
/// only in case are all unknown.
pub proof fn lemma_other_families_unknown()
    ensures
        validity_of_family(""@) == Validity::Unknown,
        validity_of_family("Chrome"@) == Validity::Unknown,
        validity_of_family("Opera"@) == Validity::Unknown,
        validity_of_family("safari"@) == Validity::Unknown,
{
    reveal_strlit("");
    reveal_strlit("Safari");
    reveal_strlit("Firefox");
    reveal_strlit("Chrome");
    reveal_strlit("Opera");
    reveal_strlit("safari");
    assert(""@.len() == 0 && "Safari"@.len() == 6 && "Firefox"@.len() == 7);
    assert("Chrome"@[0] != "Safari"@[0] && "Chrome"@[0] != "Firefox"@[0]);
    assert("Opera"@[0] != "Safari"@[0] && "Opera"@[0] != "Firefox"@[0]);
    assert("safari"@[0] != "Safari"@[0] && "safari"@[0] != "Firefox"@[0]);
}

/// The verdict is one of the three, and it is fixed by the family name
/// alone: the same name always gives the same verdict.
pub proof fn lemma_verdict_total_and_pure(a: Seq<char>, b: Seq<char>)
    ensures
        validity_of_family(a) == Validity::Unknown || validity_of_family(a) == Validity::Valid
            || validity_of_family(a) == Validity::Invalid,
        a == b ==> validity_of_family(a) == validity_of_family(b),
{
}

} // verus!

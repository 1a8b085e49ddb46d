use vstd::prelude::*;

use crate::error::RerunError;

verus! {

/// The negation marker of gitignore syntax.
pub open spec fn is_negated(g: Seq<char>) -> bool {
    g.len() > 0 && g[0] == '!'
}

/// True when no pattern of `globs` begins with the negation marker.
pub open spec fn all_plain(globs: Seq<&str>) -> bool {
    forall|i: int| 0 <= i < globs.len() ==> !is_negated(#[trigger] globs[i]@)
}

/// Tests whether a single pattern begins with `!`.
pub fn starts_negated(g: &str) -> (r: bool)
    ensures
        r == is_negated(g@),
{
    if g.is_empty() {
        false
    } else {
        g.get_char(0) == '!'
    }
}

/// Check that no pattern begins with `!`: such patterns are reserved for the
/// translation of exclusions into override rules and are refused as input.
pub fn check_globs(globs: &[&str]) -> (r: Result<(), RerunError>)
    ensures
        r is Ok <==> all_plain(globs@),
        r is Err ==> r == Err::<(), RerunError>(RerunError::InvalidPattern),
{
    let mut i: usize = 0;
    while i < globs.len()
        invariant
            0 <= i <= globs@.len(),
            forall|j: int| 0 <= j < i ==> !is_negated(#[trigger] globs@[j]@),
        decreases globs@.len() - i,
    {
        if starts_negated(globs[i]) {
            return Err(RerunError::InvalidPattern);
        }
        i = i + 1;
    }
    Ok(())
}

} // verus!

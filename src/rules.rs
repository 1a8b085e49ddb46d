use vstd::prelude::*;

use ignore::overrides::{Override, OverrideBuilder};

use crate::error::RerunError;
use crate::patterns::{all_plain, check_globs, is_negated};

verus! {

#[verifier::external_type_specification]
#[verifier::external_body]
pub struct ExOverrideBuilder(OverrideBuilder);

#[verifier::external_type_specification]
#[verifier::external_body]
pub struct ExOverride(Override);

#[verifier::external_type_specification]
#[verifier::external_body]
pub struct ExIgnoreError(ignore::Error);

/// The rules an override builder holds, in the order they were added, each
/// as the line it stored.
pub uninterp spec fn held_rules(b: OverrideBuilder) -> Seq<Seq<char>>;

/// The builder parses globs case-sensitively and refuses unclosed character
/// classes, the settings that `OverrideBuilder::new` gives it.
pub uninterp spec fn strict_settings(b: OverrideBuilder) -> bool;

/// The override line `line` parses as a glob under the strict settings.
pub uninterp spec fn exclusion_compiles(line: Seq<char>) -> bool;

/// The stored rules `rules`, parsed under the strict settings, compile into
/// one glob set.
pub uninterp spec fn overrides_build(rules: Seq<Seq<char>>) -> bool;

/// The rules a built override matcher applies, in order, each as the line
/// it was built from.
pub uninterp spec fn override_rules(o: Override) -> Seq<Seq<char>>;

/// The characters that `char::is_whitespace` accepts: the Unicode
/// `White_Space` property.
pub open spec fn is_white_space(c: char) -> bool {
    ||| c == ' '
    ||| ('\u{9}' <= c && c <= '\u{d}')
    ||| c == '\u{85}'
    ||| c == '\u{a0}'
    ||| c == '\u{1680}'
    ||| ('\u{2000}' <= c && c <= '\u{200a}')
    ||| c == '\u{2028}'
    ||| c == '\u{2029}'
    ||| c == '\u{202f}'
    ||| c == '\u{205f}'
    ||| c == '\u{3000}'
}

/// `s` without its trailing white space.
pub open spec fn trim_end(s: Seq<char>) -> Seq<char>
    decreases s.len(),
{
    if s.len() > 0 && is_white_space(s.last()) {
        trim_end(s.drop_last())
    } else {
        s
    }
}

/// The line a builder stores for `line`: trailing white space is trimmed,
/// unless the line ends in an escaped space.
pub open spec fn stored_line(line: Seq<char>) -> Seq<char> {
    if line.len() >= 2 && line[line.len() - 2] == '\\' && line.last() == ' ' {
        line
    } else {
        trim_end(line)
    }
}

/// The override line that excludes what the caller's pattern `g` matches:
/// in override syntax a leading `!` marks an exclusion.
pub open spec fn exclusion_line(g: Seq<char>) -> Seq<char> {
    seq!['!'] + g
}

/// The rules stored for `globs`: one exclusion rule per pattern, in order.
pub open spec fn exclusion_rules(globs: Seq<&str>) -> Seq<Seq<char>> {
    Seq::new(globs.len(), |i: int| stored_line(exclusion_line(globs[i]@)))
}

/// Every pattern's exclusion line parses as a glob.
pub open spec fn all_compile(globs: Seq<&str>) -> bool {
    forall|i: int| 0 <= i < globs.len() ==> exclusion_compiles(exclusion_line(#[trigger] globs[i]@))
}

/// `build_overrides` succeeds on `globs`: no pattern is negated, each
/// exclusion line parses, and the rules compile together.
pub open spec fn overrides_succeed(globs: Seq<&str>) -> bool {
    &&& all_plain(globs)
    &&& all_compile(globs)
    &&& overrides_build(exclusion_rules(globs))
}

/// Relies on `OverrideBuilder::new`: a new builder holds no rules and has
/// the strict settings.
#[verifier::external_body]
fn new_builder(root: &str) -> (b: OverrideBuilder)
    ensures
        held_rules(b) == Seq::<Seq<char>>::empty(),
        strict_settings(b),
{
    OverrideBuilder::new(root)
}

/// Relies on `OverrideBuilder::add`, which hands the line to
/// `GitignoreBuilder::add_line`. A line that begins with `!` is neither a
/// comment nor blank; it succeeds exactly when its glob parses, and then
/// one rule is appended: the stored form of the line. The settings are
/// left as they were, and a failure adds nothing.
#[verifier::external_body]
fn add_rule(b: &mut OverrideBuilder, line: &str) -> (r: Result<(), ignore::Error>)
    requires
        is_negated(line@),
        strict_settings(*old(b)),
    ensures
        strict_settings(*final(b)),
        r is Ok <==> exclusion_compiles(line@),
        r is Ok ==> held_rules(*final(b)) == held_rules(*old(b)).push(stored_line(line@)),
{
    match b.add(line) {
        Ok(_) => Ok(()),
        Err(e) => Err(e),
    }
}

/// Relies on `OverrideBuilder::build`: the matcher keeps the builder's
/// rules, in order; building fails only when the glob set does not
/// compile, and an empty set always does.
#[verifier::external_body]
fn build_override(b: &OverrideBuilder) -> (r: Result<Override, ignore::Error>)
    requires
        strict_settings(*b),
    ensures
        r is Ok <==> overrides_build(held_rules(*b)),
        held_rules(*b).len() == 0 ==> r is Ok,
        r matches Ok(o) ==> override_rules(o) == held_rules(*b),
{
    b.build()
}

/// Build the override matcher for `root` that excludes whatever one of
/// `globs` matches. The patterns are all checked before any rule is built.
pub fn build_overrides(root: &str, globs: &[&str]) -> (r: Result<Override, RerunError>)
    ensures
        r is Ok <==> overrides_succeed(globs@),
        r == Err::<Override, RerunError>(RerunError::InvalidPattern) <==> !all_plain(globs@),
        r == Err::<Override, RerunError>(RerunError::InvalidOverride) <==> all_plain(globs@)
            && !overrides_succeed(globs@),
        globs@.len() == 0 ==> r is Ok,
        r matches Ok(o) ==> override_rules(o) == exclusion_rules(globs@),
{
    if let Err(e) = check_globs(globs) {
        return Err(e);
    }
    let mut b = new_builder(root);
    let mut i: usize = 0;
    while i < globs.len()
        invariant
            0 <= i <= globs@.len(),
            all_plain(globs@),
            strict_settings(b),
            held_rules(b) == exclusion_rules(globs@).take(i as int),
            forall|j: int| 0 <= j < i ==> exclusion_compiles(exclusion_line(#[trigger] globs@[j]@)),
        decreases globs@.len() - i,
    {
        let mut line = String::from_str("!");
        line.append(globs[i]);
        proof {
            reveal_strlit("!");
            assert(line@ == exclusion_line(globs@[i as int]@));
        }
        match add_rule(&mut b, line.as_str()) {
            Ok(()) => {},
            Err(_) => {
                return Err(RerunError::InvalidOverride);
            },
        }
        assert(exclusion_rules(globs@).take(i + 1) =~= exclusion_rules(globs@).take(i as int).push(
            stored_line(line@),
        ));
        i = i + 1;
    }
    assert(exclusion_rules(globs@).take(i as int) =~= exclusion_rules(globs@));
    match build_override(&b) {
        Ok(o) => Ok(o),
        Err(_) => Err(RerunError::InvalidOverride),
    }
}

} // verus!

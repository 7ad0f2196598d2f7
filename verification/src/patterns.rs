//! Regular expressions, as the `regex` crate compiles and matches them. A
//! set of compiled patterns is reached only through the functions of this
//! file.

use crate::text::texts;
use vstd::prelude::*;

verus! {

/// `regex::RegexSet`: patterns compiled together.
#[verifier::external_type_specification]
#[verifier::external_body]
pub struct ExRegexSet(regex::RegexSet);

/// `regex::Error`: why patterns did not compile.
#[verifier::external_type_specification]
#[verifier::external_body]
pub struct ExRegexError(regex::Error);

/// The patterns that a compiled set was made from, in their order.
pub uninterp spec fn regex_set_patterns(set: regex::RegexSet) -> Seq<Seq<char>>;

/// Whether `RegexSet::new` compiles these patterns into a set.
pub uninterp spec fn patterns_compile(patterns: Seq<Seq<char>>) -> bool;

/// Whether the regular expression `pattern` matches somewhere in `text`:
/// whether a set that holds the pattern reports it among its matches.
pub uninterp spec fn pattern_matches(pattern: Seq<char>, text: Seq<char>) -> bool;

/// `RegexSet::new` compiles the patterns into one set or returns an error;
/// which of the two depends on the patterns alone. The set remembers the
/// patterns in the order given.
#[verifier::external_body]
pub(crate) fn compile_set(patterns: &Vec<String>) -> (compiled: Result<
    regex::RegexSet,
    regex::Error,
>)
    ensures
        compiled is Ok <==> patterns_compile(texts(patterns@)),
        compiled matches Ok(set) ==> regex_set_patterns(set) == texts(patterns@),
{
    regex::RegexSet::new(patterns)
}

/// `RegexSet::matches` finds which patterns of the set match in the text, and
/// the iterator over them runs through their positions in ascending order:
/// its first item is the position of the first pattern that matches, and it
/// has none when no pattern matches.
#[verifier::external_body]
pub(crate) fn first_match(set: &regex::RegexSet, text: &str) -> (first: Option<usize>)
    ensures
        first matches Some(i) ==> i < regex_set_patterns(*set).len() && pattern_matches(
            regex_set_patterns(*set)[i as int],
            text@,
        ),
        first matches Some(i) ==> forall|j: int|
            0 <= j < i ==> !pattern_matches(#[trigger] regex_set_patterns(*set)[j], text@),
        first is None ==> forall|j: int|
            0 <= j < regex_set_patterns(*set).len() ==> !pattern_matches(
                #[trigger] regex_set_patterns(*set)[j],
                text@,
            ),
{
    set.matches(text).iter().next()
}

/// `RegexSet::clone` makes a set of the same patterns in the same order.
#[verifier::external_body]
pub(crate) fn clone_set(set: &regex::RegexSet) -> (copy: regex::RegexSet)
    ensures
        regex_set_patterns(copy) == regex_set_patterns(*set),
{
    set.clone()
}

/// The text that the `regex` crate gives for an error. Nothing is claimed
/// about it.
#[verifier::external_body]
pub(crate) fn describe(error: &regex::Error) -> (message: String) {
    error.to_string()
}

} // verus!

//! Regular expressions: the `regex` crate compiles and runs them, and the
//! contracts here give its answers names that the parsers reason with.

use crate::text::on_boundary;
use vstd::prelude::*;

verus! {

/// `regex::Regex`, a compiled regular expression. Nothing of its inside is
/// known here.
#[verifier::external_type_specification]
#[verifier::external_body]
pub struct ExRegex(regex::Regex);

/// Why a pattern was not compiled.
#[derive(Clone, Debug, PartialEq, Eq)]
pub enum PatternError {
    /// The pattern is not well formed; holds the compiler's explanation.
    Syntax(String),
    /// The compiled program would exceed the size limit, which is given.
    CompiledTooBig(usize),
    /// Any other failure, as the compiler describes it.
    Other(String),
}

/// The mathematical value of a [`PatternError`].
pub enum PatternErrorView {
    Syntax(Seq<char>),
    CompiledTooBig(nat),
    Other(Seq<char>),
}

impl View for PatternError {
    type V = PatternErrorView;

    open spec fn view(&self) -> PatternErrorView {
        match *self {
            PatternError::Syntax(message) => PatternErrorView::Syntax(message@),
            PatternError::CompiledTooBig(limit) => PatternErrorView::CompiledTooBig(limit as nat),
            PatternError::Other(message) => PatternErrorView::Other(message@),
        }
    }
}

/// The failure with which `regex::Regex::new` refuses `pattern`, `None`
/// where it compiles it.
pub uninterp spec fn compile_failure(pattern: Seq<char>) -> Option<PatternErrorView>;

/// The pattern that a compiled expression was made from, which is what
/// `regex::Regex::as_str` returns.
pub uninterp spec fn regex_source(re: regex::Regex) -> Seq<char>;

/// The byte offsets at which the successive matches of `pattern` in `text`
/// begin, as `regex::Regex::find_iter` yields them.
pub uninterp spec fn match_starts(pattern: Seq<char>, text: Seq<char>) -> Seq<int>;

/// The capture groups of the first match of `pattern` in `text`, as
/// `regex::Regex::captures` reports them: group 0 is the whole match, and a
/// group that took no part in the match is `None`.
pub uninterp spec fn first_captures(pattern: Seq<char>, text: Seq<char>) -> Option<
    Seq<Option<Seq<char>>>,
>;

/// The mathematical value of a list of capture groups.
pub open spec fn groups_view(groups: Option<Vec<Option<String>>>) -> Option<
    Seq<Option<Seq<char>>>,
> {
    match groups {
        Some(list) => Some(
            list@.map_values(
                |g: Option<String>|
                    match g {
                        Some(s) => Some(s@),
                        None => None,
                    },
            ),
        ),
        None => None,
    }
}

/// Calls `regex::Regex::new`. The outcome depends on the pattern alone:
/// either the compiled expression, which remembers its pattern, or the
/// crate's error, variant by variant.
#[verifier::external_body]
pub(crate) fn compile(pattern: &str) -> (r: Result<regex::Regex, PatternError>)
    ensures
        match r {
            Ok(re) => compile_failure(pattern@) is None && regex_source(re) == pattern@,
            Err(e) => compile_failure(pattern@) == Some(e@),
        },
{
    match regex::Regex::new(pattern) {
        Ok(re) => Ok(re),
        Err(regex::Error::Syntax(message)) => Err(PatternError::Syntax(message)),
        Err(regex::Error::CompiledTooBig(limit)) => Err(PatternError::CompiledTooBig(limit)),
        Err(other) => Err(PatternError::Other(format!("{:#?}", other))),
    }
}

/// Calls `regex::Regex::find_iter` and keeps where each match starts. The
/// crate documents these as byte offsets into the text that fall on
/// character boundaries, and the matches as successive and non-overlapping,
/// so that no offset is smaller than the one before it.
#[verifier::external_body]
pub(crate) fn find_starts(re: &regex::Regex, text: &str) -> (starts: Vec<usize>)
    ensures
        starts@.map_values(|s: usize| s as int) == match_starts(regex_source(*re), text@),
        forall|i: int| 0 <= i < starts@.len() ==> on_boundary(text@, #[trigger] starts@[i] as int),
        forall|i: int, j: int| 0 <= i <= j < starts@.len() ==> starts@[i] <= starts@[j],
{
    re.find_iter(text).map(|m| m.start()).collect()
}

/// Calls `regex::Regex::captures` and copies out the text of each group of
/// the first match.
#[verifier::external_body]
pub(crate) fn capture_groups(re: &regex::Regex, text: &str) -> (groups: Option<
    Vec<Option<String>>,
>)
    ensures
        groups_view(groups) == first_captures(regex_source(*re), text@),
{
    re.captures(text).map(|c| c.iter().map(|g| g.map(|m| m.as_str().to_owned())).collect())
}

} // verus!

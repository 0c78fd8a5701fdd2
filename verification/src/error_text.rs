//! Turns the block of text that a failing backend emits into diagnostics.
//!
//! A header pattern marks where each diagnostic starts. The text is cut at
//! those places, and a detail pattern takes severity, location and message
//! out of each piece. A piece that the detail pattern does not match is
//! kept whole as an internal error, so that nothing the backend said is
//! lost.

use crate::pattern::{
    capture_groups, compile, compile_failure, find_starts, first_captures, groups_view,
    match_starts, regex_source, PatternError, PatternErrorView,
};
use crate::shader_error::{ShaderError, ShaderErrorList, ShaderErrorSeverity, ShaderErrorView};
use crate::text::{
    decimal_digits, join, lemma_span_join, number_or_zero, on_boundary, parse_number,
    render_decimal, same_text, slice_span, span,
};
use vstd::prelude::*;
use vstd::string::*;
use vstd::utf8::*;

verus! {

/// The two ways in which the backends write their diagnostics.
#[derive(Clone, Copy, Debug, PartialEq, Eq, Structural)]
pub enum ErrorFormat {
    /// `ERROR: 0:12: message`: an upper-case severity, the index of the
    /// source string, and the line. No column is given.
    Glslang,
    /// `file:12:7: error: message`: the file, the line, the column, and a
    /// lower-case severity.
    Dxc,
}

/// The text of capture group `i`, empty where the group is absent.
pub open spec fn group_text(groups: Seq<Option<Seq<char>>>, i: int) -> Seq<char> {
    if 0 <= i < groups.len() {
        match groups[i] {
            Some(s) => s,
            None => Seq::empty(),
        }
    } else {
        Seq::empty()
    }
}

/// The message of the internal error that stands for text left unparsed.
pub open spec fn unparsed_message(block: Seq<char>) -> Seq<char> {
    "Failed to parse regex: "@ + block
}

/// The message of the internal error that reports a pattern that the
/// regular-expression compiler refused.
pub open spec fn pattern_error_message(err: PatternErrorView) -> Seq<char> {
    match err {
        PatternErrorView::CompiledTooBig(limit) => "Regex compile too big: "@ + decimal_digits(
            limit,
        ),
        PatternErrorView::Syntax(message) => "Regex syntax invalid: "@ + message,
        PatternErrorView::Other(message) => "Regex error: "@ + message,
    }
}

/// Where piece `i` of a text ends: where the next header starts, or at the
/// end of the text.
pub open spec fn block_end(text: Seq<char>, starts: Seq<int>, i: int) -> int {
    if i + 1 < starts.len() {
        starts[i + 1]
    } else {
        encode_utf8(text).len() as int
    }
}

/// The piece of `text` that belongs to header match `i`: from where that
/// match starts to where the piece ends.
pub open spec fn block_at(text: Seq<char>, starts: Seq<int>, i: int) -> Seq<char> {
    span(text, starts[i], block_end(text, starts, i))
}

impl ErrorFormat {
    /// The pattern that marks the start of each diagnostic.
    pub open spec fn header_pattern(self) -> Seq<char> {
        match self {
            ErrorFormat::Glslang => r"(?m)^(.*?: \d+:\d+:)"@,
            ErrorFormat::Dxc => r"(?m)^(.*?:\d+:\d+: .*:.*?)$"@,
        }
    }

    /// The pattern that takes one diagnostic apart.
    pub open spec fn detail_pattern(self) -> Seq<char> {
        match self {
            ErrorFormat::Glslang => r"(?m)^(.*?): (\d+):(\d+):(.+)"@,
            ErrorFormat::Dxc => r"(?s)^(.*?):(\d+):(\d+): (.*?):(.*)"@,
        }
    }

    /// The severity that a tag of this format names. A tag that is none of
    /// the four known ones counts as an error.
    pub open spec fn severity_of(self, tag: Seq<char>) -> ShaderErrorSeverity {
        match self {
            ErrorFormat::Glslang => if tag == "WARNING"@ {
                ShaderErrorSeverity::Warning
            } else if tag == "NOTE"@ {
                ShaderErrorSeverity::Information
            } else if tag == "HINT"@ {
                ShaderErrorSeverity::Hint
            } else {
                ShaderErrorSeverity::Error
            },
            ErrorFormat::Dxc => if tag == "warning"@ {
                ShaderErrorSeverity::Warning
            } else if tag == "note"@ {
                ShaderErrorSeverity::Information
            } else if tag == "hint"@ {
                ShaderErrorSeverity::Hint
            } else {
                ShaderErrorSeverity::Error
            },
        }
    }

    /// The diagnostic that one piece of the text becomes, given the capture
    /// groups that the detail pattern found in it, if it matched.
    pub open spec fn diagnostic(
        self,
        block: Seq<char>,
        groups: Option<Seq<Option<Seq<char>>>>,
    ) -> ShaderErrorView {
        match groups {
            None => ShaderErrorView::InternalErr(unparsed_message(block)),
            Some(g) => match self {
                ErrorFormat::Glslang => ShaderErrorView::ParserErr {
                    severity: self.severity_of(group_text(g, 1)),
                    error: group_text(g, 4),
                    line: number_or_zero(group_text(g, 3)),
                    pos: 0,
                },
                ErrorFormat::Dxc => ShaderErrorView::ParserErr {
                    severity: self.severity_of(group_text(g, 4)),
                    error: group_text(g, 5),
                    line: number_or_zero(group_text(g, 2)),
                    pos: number_or_zero(group_text(g, 3)),
                },
            },
        }
    }

    /// The diagnostics that a text holds, given where its headers start.
    pub open spec fn diagnostics_at(self, text: Seq<char>, starts: Seq<int>) -> Seq<
        ShaderErrorView,
    > {
        if starts.len() == 0 {
            if text.len() == 0 {
                Seq::empty()
            } else {
                seq![ShaderErrorView::InternalErr(unparsed_message(text))]
            }
        } else {
            Seq::new(
                starts.len(),
                |i: int|
                    self.diagnostic(
                        block_at(text, starts, i),
                        first_captures(self.detail_pattern(), block_at(text, starts, i)),
                    ),
            )
        }
    }

    /// The diagnostics that a text holds.
    pub open spec fn diagnostics(self, text: Seq<char>) -> Seq<ShaderErrorView> {
        self.diagnostics_at(text, match_starts(self.header_pattern(), text))
    }

    /// What parsing a text gives: its diagnostics, or, where one of the two
    /// patterns is refused, the report of that.
    pub open spec fn outcome(self, text: Seq<char>) -> Result<
        Seq<ShaderErrorView>,
        Seq<ShaderErrorView>,
    > {
        match compile_failure(self.header_pattern()) {
            Some(e) => Err(seq![ShaderErrorView::InternalErr(pattern_error_message(e))]),
            None => match compile_failure(self.detail_pattern()) {
                Some(e) => Err(seq![ShaderErrorView::InternalErr(pattern_error_message(e))]),
                None => Ok(self.diagnostics(text)),
            },
        }
    }

    /// What a backend that failed with the given text is reported with:
    /// the diagnostics of the text or the report of a refused pattern, and
    /// where that would be nothing, one internal error that says so.
    pub open spec fn failure_report(self, text: Seq<char>) -> Seq<ShaderErrorView> {
        let list = match self.outcome(text) {
            Ok(list) => list,
            Err(list) => list,
        };
        if list.len() == 0 {
            seq![ShaderErrorView::InternalErr("Compilation failed without diagnostics"@)]
        } else {
            list
        }
    }

    fn header(self) -> (pattern: &'static str)
        ensures
            pattern@ == self.header_pattern(),
    {
        match self {
            ErrorFormat::Glslang => r"(?m)^(.*?: \d+:\d+:)",
            ErrorFormat::Dxc => r"(?m)^(.*?:\d+:\d+: .*:.*?)$",
        }
    }

    fn detail(self) -> (pattern: &'static str)
        ensures
            pattern@ == self.detail_pattern(),
    {
        match self {
            ErrorFormat::Glslang => r"(?m)^(.*?): (\d+):(\d+):(.+)",
            ErrorFormat::Dxc => r"(?s)^(.*?):(\d+):(\d+): (.*?):(.*)",
        }
    }

    /// Maps a severity tag to a severity.
    pub fn severity(self, tag: &str) -> (severity: ShaderErrorSeverity)
        ensures
            severity == self.severity_of(tag@),
    {
        match self {
            ErrorFormat::Glslang => if same_text(tag, "WARNING") {
                ShaderErrorSeverity::Warning
            } else if same_text(tag, "NOTE") {
                ShaderErrorSeverity::Information
            } else if same_text(tag, "HINT") {
                ShaderErrorSeverity::Hint
            } else {
                ShaderErrorSeverity::Error
            },
            ErrorFormat::Dxc => if same_text(tag, "warning") {
                ShaderErrorSeverity::Warning
            } else if same_text(tag, "note") {
                ShaderErrorSeverity::Information
            } else if same_text(tag, "hint") {
                ShaderErrorSeverity::Hint
            } else {
                ShaderErrorSeverity::Error
            },
        }
    }

    /// Builds the diagnostic for one piece of the text from what the detail
    /// pattern captured in it; `None` says that the pattern did not match.
    pub fn diagnostic_of(self, block: &str, groups: Option<Vec<Option<String>>>) -> (error:
        ShaderError)
        ensures
            error@ == self.diagnostic(block@, groups_view(groups)),
    {
        match groups {
            None => unparsed(block),
            Some(g) => match self {
                ErrorFormat::Glslang => ShaderError::ParserErr {
                    severity: self.severity(group(&g, 1)),
                    error: group(&g, 4).to_owned(),
                    line: parse_number(group(&g, 3)),
                    pos: 0,
                },
                ErrorFormat::Dxc => ShaderError::ParserErr {
                    severity: self.severity(group(&g, 4)),
                    error: group(&g, 5).to_owned(),
                    line: parse_number(group(&g, 2)),
                    pos: parse_number(group(&g, 3)),
                },
            },
        }
    }

    /// Parses the text that a failing backend emitted.
    ///
    /// Each header match yields exactly one diagnostic, in the order of the
    /// text. A text without any header match becomes one internal error
    /// that holds it whole, unless it is empty.
    pub fn parse(self, errors: &str) -> (r: Result<ShaderErrorList, ShaderErrorList>)
        ensures
            match self.outcome(errors@) {
                Ok(list) => r is Ok && r->Ok_0@ == list,
                Err(list) => r is Err && r->Err_0@ == list,
            },
    {
        let header = match compile(self.header()) {
            Ok(re) => re,
            Err(e) => {
                return Err(pattern_failure(e));
            },
        };
        let starts = find_starts(&header, errors);
        assert(offsets_view(starts@) == match_starts(self.header_pattern(), errors@));
        let detail = match compile(self.detail()) {
            Ok(re) => re,
            Err(e) => {
                return Err(pattern_failure(e));
            },
        };
        Ok(self.collect(errors, &starts, &detail))
    }

    /// Reports a backend that failed with the given text. The report is
    /// never empty: a failure without any diagnostic is itself reported.
    pub fn report_failure(self, errors: &str) -> (list: ShaderErrorList)
        ensures
            list@ == self.failure_report(errors@),
            list@.len() > 0,
    {
        let list = match self.parse(errors) {
            Ok(list) => list,
            Err(list) => list,
        };
        if list.errors.len() == 0 {
            ShaderErrorList::internal("Compilation failed without diagnostics".to_owned())
        } else {
            list
        }
    }

    /// Reads each piece of `errors` with `detail`, given where the headers
    /// start.
    fn collect(self, errors: &str, starts: &Vec<usize>, detail: &regex::Regex) -> (list:
        ShaderErrorList)
        requires
            regex_source(*detail) == self.detail_pattern(),
            forall|i: int| 0 <= i < starts@.len() ==> on_boundary(errors@, #[trigger] starts@[i] as int),
            forall|i: int, j: int| 0 <= i <= j < starts@.len() ==> starts@[i] <= starts@[j],
        ensures
            list@ == self.diagnostics_at(errors@, offsets_view(starts@)),
    {
        let ghost offsets = offsets_view(starts@);
        let mut list = ShaderErrorList::empty();
        if starts.len() == 0 {
            if !errors.is_empty() {
                list.push(unparsed(errors));
            }
            assert(list@ =~= self.diagnostics_at(errors@, offsets));
            return list;
        }
        let blocks = cut_blocks(errors, starts);
        let mut i: usize = 0;
        while i < blocks.len()
            invariant
                i <= blocks.len(),
                blocks.len() == starts.len(),
                starts.len() > 0,
                offsets == offsets_view(starts@),
                regex_source(*detail) == self.detail_pattern(),
                forall|k: int| 0 <= k < blocks@.len() ==> (#[trigger] blocks@[k])@ == block_at(errors@, offsets, k),
                list@ == self.diagnostics_at(errors@, offsets).take(i as int),
            decreases blocks.len() - i,
        {
            let block = blocks[i];
            let groups = capture_groups(detail, block);
            list.push(self.diagnostic_of(block, groups));
            assert(list@ =~= self.diagnostics_at(errors@, offsets).take(i + 1));
            i += 1;
        }
        assert(list@ =~= self.diagnostics_at(errors@, offsets));
        list
    }
}

/// Byte offsets as mathematical integers.
pub open spec fn offsets_view(starts: Seq<usize>) -> Seq<int> {
    starts.map_values(|s: usize| s as int)
}

/// Cuts a text into its pieces, given the byte offsets at which the
/// headers start: piece `i` runs from offset `i` to the next offset, and
/// the last one to the end of the text. The offsets must not decrease and
/// must not split a character.
pub fn cut_blocks<'a>(errors: &'a str, starts: &Vec<usize>) -> (blocks: Vec<&'a str>)
    requires
        forall|i: int| 0 <= i < starts@.len() ==> on_boundary(errors@, #[trigger] starts@[i] as int),
        forall|i: int, j: int| 0 <= i <= j < starts@.len() ==> starts@[i] <= starts@[j],
    ensures
        blocks@.len() == starts@.len(),
        forall|i: int|
            0 <= i < blocks@.len() ==> (#[trigger] blocks@[i])@ == block_at(
                errors@,
                offsets_view(starts@),
                i,
            ),
{
    broadcast use group_utf8_lib;

    let ghost offsets = offsets_view(starts@);
    let end = errors.as_bytes().len();
    assert(on_boundary(errors@, end as int)) by {
        is_char_boundary_start_end_of_seq(encode_utf8(errors@));
    }
    let mut blocks: Vec<&'a str> = Vec::new();
    let mut i: usize = 0;
    while i < starts.len()
        invariant
            i <= starts.len(),
            blocks@.len() == i,
            end == encode_utf8(errors@).len(),
            on_boundary(errors@, end as int),
            offsets == offsets_view(starts@),
            forall|k: int| 0 <= k < starts@.len() ==> on_boundary(errors@, #[trigger] starts@[k] as int),
            forall|k: int, j: int| 0 <= k <= j < starts@.len() ==> starts@[k] <= starts@[j],
            forall|k: int| 0 <= k < i ==> (#[trigger] blocks@[k])@ == block_at(errors@, offsets, k),
        decreases starts.len() - i,
    {
        let first = starts[i];
        let next = if i + 1 < starts.len() {
            starts[i + 1]
        } else {
            end
        };
        let block = slice_span(errors, first, next);
        assert(block@ == block_at(errors@, offsets, i as int));
        blocks.push(block);
        i += 1;
    }
    blocks
}

/// Every header match yields exactly one diagnostic. Where the two
/// patterns of a format compile, parsing a text in which the header
/// pattern matches `n > 0` times succeeds with `n` diagnostics in the order
/// of the matches, and each is either the structured reading of its piece
/// or that piece kept whole.
pub proof fn lemma_one_diagnostic_per_header(format: ErrorFormat, text: Seq<char>)
    requires
        compile_failure(format.header_pattern()) is None,
        compile_failure(format.detail_pattern()) is None,
        match_starts(format.header_pattern(), text).len() > 0,
    ensures
        format.outcome(text) == Ok::<Seq<ShaderErrorView>, Seq<ShaderErrorView>>(
            format.diagnostics(text),
        ),
        format.diagnostics(text).len() == match_starts(format.header_pattern(), text).len(),
        forall|i: int|
            0 <= i < format.diagnostics(text).len() ==> {
                let block = block_at(text, match_starts(format.header_pattern(), text), i);
                #[trigger] format.diagnostics(text)[i] == format.diagnostic(
                    block,
                    first_captures(format.detail_pattern(), block),
                ) && match format.diagnostics(text)[i] {
                    ShaderErrorView::ParserErr { .. } => first_captures(
                        format.detail_pattern(),
                        block,
                    ) is Some,
                    ShaderErrorView::InternalErr(message) => message == unparsed_message(block),
                    _ => false,
                }
            },
{
}

/// Where the two patterns of a format compile, a text that is not empty
/// and in which the header pattern matches nowhere is kept whole: parsing
/// it succeeds with one internal error that holds the text.
pub proof fn lemma_text_without_header_is_kept(format: ErrorFormat, text: Seq<char>)
    requires
        compile_failure(format.header_pattern()) is None,
        compile_failure(format.detail_pattern()) is None,
        match_starts(format.header_pattern(), text).len() == 0,
        text.len() > 0,
    ensures
        format.outcome(text) == Ok::<Seq<ShaderErrorView>, Seq<ShaderErrorView>>(
            seq![ShaderErrorView::InternalErr(unparsed_message(text))],
        ),
{
}

/// The first `n` pieces of a text, one after the other.
pub open spec fn blocks_joined(text: Seq<char>, starts: Seq<int>, n: int) -> Seq<char>
    decreases n,
{
    if n <= 0 {
        Seq::empty()
    } else {
        blocks_joined(text, starts, n - 1) + block_at(text, starts, n - 1)
    }
}

/// Nothing between two headers is dropped: the pieces that a text is cut
/// into, one after the other, are the text from its first header on.
pub proof fn lemma_blocks_cover_text(text: Seq<char>, starts: Seq<int>, n: int)
    requires
        1 <= n <= starts.len(),
        forall|i: int| 0 <= i < starts.len() ==> on_boundary(text, #[trigger] starts[i]),
        forall|i: int, j: int| 0 <= i <= j < starts.len() ==> starts[i] <= starts[j],
    ensures
        blocks_joined(text, starts, n) == span(text, starts[0], block_end(text, starts, n - 1)),
    decreases n,
{
    broadcast use group_utf8_lib;

    let end = encode_utf8(text).len() as int;
    assert(on_boundary(text, end));
    assert(on_boundary(text, block_end(text, starts, n - 1)));
    if n == 1 {
        assert(blocks_joined(text, starts, 0) =~= Seq::<char>::empty());
        assert(blocks_joined(text, starts, 1) =~= block_at(text, starts, 0));
    } else {
        lemma_blocks_cover_text(text, starts, n - 1);
        assert(on_boundary(text, starts[n - 1]));
        lemma_span_join(text, starts[0], starts[n - 1], block_end(text, starts, n - 1));
    }
}

/// The glslang format carries no column, so every located diagnostic read
/// from it has column 0, whatever the text holds.
pub proof fn lemma_glslang_column_is_zero(text: Seq<char>, i: int)
    requires
        0 <= i < ErrorFormat::Glslang.diagnostics(text).len(),
    ensures
        ErrorFormat::Glslang.diagnostics(text)[i] matches ShaderErrorView::ParserErr { pos, .. }
            ==> pos == 0,
{
}

/// A backend that failed and said anything is never reported as clean:
/// whatever parsing a text that is not empty gives, diagnostics or the
/// report of a refused pattern, it holds at least one entry.
pub proof fn lemma_failure_text_is_reported(format: ErrorFormat, text: Seq<char>)
    requires
        text.len() > 0,
    ensures
        format.diagnostics(text).len() > 0,
        match format.outcome(text) {
            Ok(list) => list.len() > 0,
            Err(list) => list.len() == 1,
        },
{
}

/// The text of capture group `i`, empty where the group is absent.
fn group(groups: &Vec<Option<String>>, i: usize) -> (text: &str)
    ensures
        text@ == group_text(groups_view(Some(*groups))->Some_0, i as int),
{
    proof {
        reveal_strlit("");
    }
    if i < groups.len() {
        match &groups[i] {
            Some(s) => s.as_str(),
            None => "",
        }
    } else {
        ""
    }
}

/// The internal error that keeps a piece of text that could not be read.
pub fn unparsed(block: &str) -> (error: ShaderError)
    ensures
        error@ == ShaderErrorView::InternalErr(unparsed_message(block@)),
{
    ShaderError::InternalErr(join("Failed to parse regex: ", block))
}

/// The batch that reports a pattern that the regular-expression compiler
/// refused.
pub fn pattern_failure(err: PatternError) -> (list: ShaderErrorList)
    ensures
        list@ == seq![ShaderErrorView::InternalErr(pattern_error_message(err@))],
{
    let message = match err {
        PatternError::CompiledTooBig(limit) => {
            let digits = render_decimal(limit);
            join("Regex compile too big: ", digits.as_str())
        },
        PatternError::Syntax(message) => join("Regex syntax invalid: ", message.as_str()),
        PatternError::Other(message) => join("Regex error: ", message.as_str()),
    };
    ShaderErrorList::internal(message)
}

} // verus!

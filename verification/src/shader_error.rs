//! The diagnostic model shared by every backend.

use crate::text::same_text;
use vstd::prelude::*;

verus! {

/// How urgent one reported issue is.
#[derive(Clone, Copy, Debug, PartialEq, Eq, Structural)]
pub enum ShaderErrorSeverity {
    Error,
    Warning,
    Information,
    Hint,
}

impl ShaderErrorSeverity {
    /// The lowercase tag under which a severity travels in a response.
    pub open spec fn label(self) -> Seq<char> {
        match self {
            ShaderErrorSeverity::Error => "error"@,
            ShaderErrorSeverity::Warning => "warning"@,
            ShaderErrorSeverity::Information => "info"@,
            ShaderErrorSeverity::Hint => "hint"@,
        }
    }

    /// The severity that a response tag stands for, if it is one of the four.
    pub open spec fn of_label(tag: Seq<char>) -> Option<ShaderErrorSeverity> {
        if tag == "error"@ {
            Some(ShaderErrorSeverity::Error)
        } else if tag == "warning"@ {
            Some(ShaderErrorSeverity::Warning)
        } else if tag == "info"@ {
            Some(ShaderErrorSeverity::Information)
        } else if tag == "hint"@ {
            Some(ShaderErrorSeverity::Hint)
        } else {
            None
        }
    }

    /// Renders the severity as its response tag.
    pub fn to_string(&self) -> (s: String)
        ensures
            s@ == self.label(),
    {
        match self {
            ShaderErrorSeverity::Error => "error".to_owned(),
            ShaderErrorSeverity::Warning => "warning".to_owned(),
            ShaderErrorSeverity::Information => "info".to_owned(),
            ShaderErrorSeverity::Hint => "hint".to_owned(),
        }
    }

    /// Reads a response tag; a text that is none of the four tags is no
    /// severity.
    pub fn from_label(tag: &str) -> (severity: Option<ShaderErrorSeverity>)
        ensures
            severity == Self::of_label(tag@),
    {
        if same_text(tag, "error") {
            Some(ShaderErrorSeverity::Error)
        } else if same_text(tag, "warning") {
            Some(ShaderErrorSeverity::Warning)
        } else if same_text(tag, "info") {
            Some(ShaderErrorSeverity::Information)
        } else if same_text(tag, "hint") {
            Some(ShaderErrorSeverity::Hint)
        } else {
            None
        }
    }

    /// Reading a tag back gives the severity it was rendered from.
    pub proof fn lemma_label_round_trip(severity: ShaderErrorSeverity)
        ensures
            Self::of_label(severity.label()) == Some(severity),
    {
        reveal_strlit("error");
        reveal_strlit("warning");
        reveal_strlit("info");
        reveal_strlit("hint");
        assert("error"@.len() == 5);
        assert("warning"@.len() == 7);
        assert("info"@.len() == 4);
        assert("hint"@.len() == 4);
        assert("info"@[0] == 'i');
        assert("hint"@[0] == 'h');
    }
}

/// One reported issue.
#[derive(Clone, Debug, PartialEq, Eq)]
pub enum ShaderError {
    /// A semantic failure: the checked source and the backend's rendering.
    ValidationErr { src: String, emitted: String },
    /// A located compiler diagnostic. `line` is counted from 1. `pos` is
    /// the column as the backend counts it: the WGSL parser counts from 1,
    /// and the glslang log gives none. Either is 0 where the backend gave
    /// no location.
    ParserErr { severity: ShaderErrorSeverity, error: String, line: usize, pos: usize },
    /// The source could not be read; holds the reader's message.
    IoErr(String),
    /// A failure of the tooling itself, or backend output left unstructured.
    InternalErr(String),
}

/// The mathematical value of a [`ShaderError`].
pub enum ShaderErrorView {
    ValidationErr { src: Seq<char>, emitted: Seq<char> },
    ParserErr { severity: ShaderErrorSeverity, error: Seq<char>, line: nat, pos: nat },
    IoErr(Seq<char>),
    InternalErr(Seq<char>),
}

impl View for ShaderError {
    type V = ShaderErrorView;

    open spec fn view(&self) -> ShaderErrorView {
        match *self {
            ShaderError::ValidationErr { src, emitted } => ShaderErrorView::ValidationErr {
                src: src@,
                emitted: emitted@,
            },
            ShaderError::ParserErr { severity, error, line, pos } => ShaderErrorView::ParserErr {
                severity,
                error: error@,
                line: line as nat,
                pos: pos as nat,
            },
            ShaderError::IoErr(message) => ShaderErrorView::IoErr(message@),
            ShaderError::InternalErr(message) => ShaderErrorView::InternalErr(message@),
        }
    }
}

/// Diagnostics in the order in which they were found.
#[derive(Clone, Debug, PartialEq, Eq)]
pub struct ShaderErrorList {
    pub errors: Vec<ShaderError>,
}

impl View for ShaderErrorList {
    type V = Seq<ShaderErrorView>;

    open spec fn view(&self) -> Seq<ShaderErrorView> {
        self.errors@.map_values(|e: ShaderError| e@)
    }
}

impl ShaderErrorList {
    /// A batch without diagnostics.
    pub fn empty() -> (list: Self)
        ensures
            list@ == Seq::<ShaderErrorView>::empty(),
    {
        let list = Self { errors: Vec::new() };
        assert(list@ =~= Seq::<ShaderErrorView>::empty());
        list
    }

    /// A batch that holds one tooling failure.
    pub fn internal(error: String) -> (list: Self)
        ensures
            list@ == seq![ShaderErrorView::InternalErr(error@)],
    {
        Self::from_error(ShaderError::InternalErr(error))
    }

    /// A batch that holds `err` alone.
    pub fn from_error(err: ShaderError) -> (list: Self)
        ensures
            list@ == seq![err@],
    {
        let mut errors = Vec::new();
        errors.push(err);
        let list = Self { errors };
        assert(list@ =~= seq![err@]);
        list
    }

    /// A batch that reports an unreadable source with the reader's message.
    pub fn from_io_error(message: String) -> (list: Self)
        ensures
            list@ == seq![ShaderErrorView::IoErr(message@)],
    {
        Self::from_error(ShaderError::IoErr(message))
    }

    /// Appends one diagnostic; the earlier ones keep their places.
    pub fn push(&mut self, error: ShaderError)
        ensures
            final(self)@ == old(self)@.push(error@),
    {
        self.errors.push(error);
        assert(self@ =~= old(self)@.push(error@));
    }
}

} // verus!

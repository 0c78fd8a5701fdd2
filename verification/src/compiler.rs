//! The glslang compiler, which checks both GLSL and HLSL: the settings
//! under which it runs, what has to be decided before it runs, and what
//! its failures become. The run itself is left to the caller: the binding
//! can panic on a source or on a log, and whether the compiler starts is
//! state of the process.

use crate::error_text::ErrorFormat;
use crate::shader_error::{ShaderError, ShaderErrorList, ShaderErrorView};
use crate::text::{join, lemma_nul_byte_is_nul_char, render_signed, signed_digits};
use vstd::prelude::*;
use vstd::string::*;
use vstd::utf8::*;

verus! {

/// The language of a source that glslang reads.
#[derive(Clone, Copy, Debug, PartialEq, Eq, Structural)]
pub enum SourceKind {
    Glsl,
    Hlsl,
}

/// The pipeline stage that a shader is compiled for.
#[derive(Clone, Copy, Debug, PartialEq, Eq, Structural)]
pub enum Stage {
    Vertex,
    Fragment,
    Compute,
}

/// The environment that a shader is checked against.
#[derive(Clone, Copy, Debug, PartialEq, Eq, Structural)]
pub enum CompileTarget {
    /// No environment, with SPIR-V 1.6 as the target language.
    Spirv1_6,
    /// Vulkan 1.3, with SPIR-V 1.6 as the target language.
    Vulkan1_3,
}

/// The settings of one run of the compiler.
#[derive(Clone, Copy, Debug, PartialEq, Eq, Structural)]
pub struct CompileSettings {
    pub language: SourceKind,
    pub stage: Stage,
    pub target: CompileTarget,
    /// Go on after the first error and report those that follow from it.
    pub cascading_errors: bool,
    /// Have the compiler add debug information to its messages.
    pub debug_info: bool,
}

/// Why a run of the compiler failed.
#[derive(Clone, Debug, PartialEq, Eq)]
pub enum GlslangFailure {
    /// Preprocessing, parsing or linking failed; holds the compiler's log.
    CompilerLog(String),
    /// The program lacks a stage; holds the stage as the compiler shows it.
    ShaderStageNotFound(String),
    /// Version and profile do not suit the target.
    InvalidProfile { target: String, version: i32, profile: String },
    /// The profile does not offer the version.
    VersionUnsupported { version: i32, profile: String },
    /// Any other failure, as the compiler shows it.
    Other(String),
}

/// The mathematical value of a [`GlslangFailure`].
pub enum GlslangFailureView {
    CompilerLog(Seq<char>),
    ShaderStageNotFound(Seq<char>),
    InvalidProfile { target: Seq<char>, version: int, profile: Seq<char> },
    VersionUnsupported { version: int, profile: Seq<char> },
    Other(Seq<char>),
}

impl View for GlslangFailure {
    type V = GlslangFailureView;

    open spec fn view(&self) -> GlslangFailureView {
        match *self {
            GlslangFailure::CompilerLog(log) => GlslangFailureView::CompilerLog(log@),
            GlslangFailure::ShaderStageNotFound(stage) => GlslangFailureView::ShaderStageNotFound(
                stage@,
            ),
            GlslangFailure::InvalidProfile {
                target,
                version,
                profile,
            } => GlslangFailureView::InvalidProfile {
                target: target@,
                version: version as int,
                profile: profile@,
            },
            GlslangFailure::VersionUnsupported {
                version,
                profile,
            } => GlslangFailureView::VersionUnsupported {
                version: version as int,
                profile: profile@,
            },
            GlslangFailure::Other(shown) => GlslangFailureView::Other(shown@),
        }
    }
}

/// The batch that reports a failure of the compiler.
pub open spec fn failure_report(failure: GlslangFailureView) -> Seq<ShaderErrorView> {
    match failure {
        GlslangFailureView::CompilerLog(log) => ErrorFormat::Glslang.failure_report(log),
        GlslangFailureView::ShaderStageNotFound(stage) => seq![
            ShaderErrorView::ValidationErr {
                src: Seq::empty(),
                emitted: "Shader stage not found: "@ + stage,
            },
        ],
        GlslangFailureView::InvalidProfile { target, version, profile } => seq![
            ShaderErrorView::InternalErr(
                "Invalid profile "@ + signed_digits(version) + " for target "@ + target + ": "@
                    + profile,
            ),
        ],
        GlslangFailureView::VersionUnsupported { version, profile } => seq![
            ShaderErrorView::InternalErr(
                "Unsupported profile "@ + signed_digits(version) + ": "@ + profile,
            ),
        ],
        GlslangFailureView::Other(shown) => seq![ShaderErrorView::InternalErr(shown)],
    }
}

/// What a check of a source reports, given how the run of the compiler
/// ended; `None` says that the compiler could not be started.
pub open spec fn run_report(run: Option<Result<(), GlslangFailureView>>) -> Result<
    (),
    Seq<ShaderErrorView>,
> {
    match run {
        None => Err(seq![ShaderErrorView::InternalErr("Failed to acquire the compiler"@)]),
        Some(Ok(_)) => Ok(()),
        Some(Err(failure)) => Err(failure_report(failure)),
    }
}

/// A check that fails says why: the report of a run that did not succeed
/// holds at least one diagnostic.
pub proof fn lemma_failed_run_has_diagnostics(run: Option<Result<(), GlslangFailureView>>)
    ensures
        run_report(run) matches Err(list) ==> list.len() > 0,
{
}

/// Whether a source holds a NUL character.
pub fn holds_nul(source: &str) -> (r: bool)
    ensures
        r == source@.contains('\0'),
{
    proof {
        lemma_nul_byte_is_nul_char(source@);
    }
    let bytes = source.as_bytes();
    let mut i: usize = 0;
    while i < bytes.len()
        invariant
            i <= bytes.len(),
            bytes@ == encode_utf8(source@),
            encode_utf8(source@).contains(0u8) <==> source@.contains('\0'),
            forall|k: int| 0 <= k < i ==> bytes@[k] != 0u8,
        decreases bytes.len() - i,
    {
        if bytes[i] == 0u8 {
            assert(encode_utf8(source@)[i as int] == 0u8);
            return true;
        }
        i += 1;
    }
    assert(!encode_utf8(source@).contains(0u8));
    false
}

impl GlslangFailure {
    /// Turns a failure of the compiler into diagnostics. A log is parsed;
    /// every other failure becomes one diagnostic that describes it.
    pub fn into_errors(self) -> (list: ShaderErrorList)
        ensures
            list@ == failure_report(self@),
            list@.len() > 0,
    {
        match self {
            GlslangFailure::CompilerLog(log) => ErrorFormat::Glslang.report_failure(log.as_str()),
            GlslangFailure::ShaderStageNotFound(stage) => {
                let src = "".to_owned();
                proof {
                    reveal_strlit("");
                    assert(src@ =~= Seq::<char>::empty());
                }
                ShaderErrorList::from_error(
                    ShaderError::ValidationErr {
                        src,
                        emitted: join("Shader stage not found: ", stage.as_str()),
                    },
                )
            },
            GlslangFailure::InvalidProfile { target, version, profile } => {
                let digits = render_signed(version);
                let mut message = join("Invalid profile ", digits.as_str());
                message.append(" for target ");
                message.append(target.as_str());
                message.append(": ");
                message.append(profile.as_str());
                assert(message@ =~= "Invalid profile "@ + signed_digits(version as int)
                    + " for target "@ + target@ + ": "@ + profile@);
                ShaderErrorList::internal(message)
            },
            GlslangFailure::VersionUnsupported { version, profile } => {
                let digits = render_signed(version);
                let mut message = join("Unsupported profile ", digits.as_str());
                message.append(": ");
                message.append(profile.as_str());
                assert(message@ =~= "Unsupported profile "@ + signed_digits(version as int) + ": "@
                    + profile@);
                ShaderErrorList::internal(message)
            },
            GlslangFailure::Other(shown) => ShaderErrorList::internal(shown),
        }
    }
}

/// The mathematical value of the end of a run of the compiler.
pub open spec fn run_view(run: Option<Result<(), GlslangFailure>>) -> Option<
    Result<(), GlslangFailureView>,
> {
    match run {
        None => None,
        Some(Ok(_)) => Some(Ok(())),
        Some(Err(failure)) => Some(Err(failure@)),
    }
}

/// `r` is the result that `expected` describes.
pub open spec fn is_report(
    r: Result<(), ShaderErrorList>,
    expected: Result<(), Seq<ShaderErrorView>>,
) -> bool {
    match expected {
        Ok(_) => r is Ok,
        Err(list) => r is Err && r->Err_0@ == list,
    }
}

/// Turns the end of a run of the compiler into the result of a check.
pub fn report_run(run: Option<Result<(), GlslangFailure>>) -> (r: Result<(), ShaderErrorList>)
    ensures
        is_report(r, run_report(run_view(run))),
{
    match run {
        None => Err(ShaderErrorList::internal("Failed to acquire the compiler".to_owned())),
        Some(Ok(_)) => Ok(()),
        Some(Err(failure)) => Err(failure.into_errors()),
    }
}

/// What a validator says of a source before any backend has run.
#[derive(Debug, PartialEq, Eq)]
pub enum Validation {
    /// The result is known.
    Done(Result<(), ShaderErrorList>),
    /// The compiler has to run on the source under these settings;
    /// [`report_run`] turns the end of the run into the result.
    Compile(CompileSettings),
    /// The WGSL parser and validator have to run on the source;
    /// `Naga::report` turns what they say into the result.
    Parse,
}

/// The mathematical value of a [`Validation`].
pub enum ValidationView {
    Done(Result<(), Seq<ShaderErrorView>>),
    Compile(CompileSettings),
    Parse,
}

impl View for Validation {
    type V = ValidationView;

    open spec fn view(&self) -> ValidationView {
        match *self {
            Validation::Done(Ok(_)) => ValidationView::Done(Ok(())),
            Validation::Done(Err(list)) => ValidationView::Done(Err(list@)),
            Validation::Compile(settings) => ValidationView::Compile(settings),
            Validation::Parse => ValidationView::Parse,
        }
    }
}

/// What a check with the compiler starts with: a source that holds a NUL
/// character is refused with an internal error, since the compiler cannot
/// take it; every other source is to be compiled under the settings.
pub open spec fn prepared(source: Seq<char>, settings: CompileSettings) -> ValidationView {
    if source.contains('\0') {
        ValidationView::Done(
            Err(seq![ShaderErrorView::InternalErr("Failed to read from source"@)]),
        )
    } else {
        ValidationView::Compile(settings)
    }
}

/// Decides what a check of `source` with the compiler starts with.
pub fn prepare(source: &str, settings: CompileSettings) -> (v: Validation)
    ensures
        v@ == prepared(source@, settings),
{
    if holds_nul(source) {
        Validation::Done(
            Err(ShaderErrorList::internal("Failed to read from source".to_owned())),
        )
    } else {
        Validation::Compile(settings)
    }
}

} // verus!

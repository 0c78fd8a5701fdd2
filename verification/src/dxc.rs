//! The DirectX shader compiler as a backend for HLSL: what its diagnostics
//! and failures become, and the decisions between its steps. Loading the
//! compiler and running it is left to the caller.

use crate::common::ShaderTree;
use crate::error_text::ErrorFormat;
use crate::shader_error::{ShaderErrorList, ShaderErrorView};
use crate::text::join;
use vstd::prelude::*;
use vstd::string::*;

verus! {

/// Why the compiler's toolchain failed.
#[derive(Clone, Debug, PartialEq, Eq)]
pub enum HassleFailure {
    /// The shader did not compile; holds the compiler's error text.
    CompileError(String),
    /// The loader failed; holds its message.
    LibLoadingError(String),
    /// A library could not be loaded; holds its file name and the loader's
    /// message.
    LoadLibraryError { filename: String, inner: String },
    /// A call into the system failed; holds the result code as it is shown.
    Win32Error(String),
    /// The operation exists on Windows only; holds the explanation.
    WindowsOnly(String),
    /// Any other failure, as the toolchain describes it.
    Other(String),
}

/// The mathematical value of a [`HassleFailure`].
pub enum HassleFailureView {
    CompileError(Seq<char>),
    LibLoadingError(Seq<char>),
    LoadLibraryError { filename: Seq<char>, inner: Seq<char> },
    Win32Error(Seq<char>),
    WindowsOnly(Seq<char>),
    Other(Seq<char>),
}

impl View for HassleFailure {
    type V = HassleFailureView;

    open spec fn view(&self) -> HassleFailureView {
        match *self {
            HassleFailure::CompileError(text) => HassleFailureView::CompileError(text@),
            HassleFailure::LibLoadingError(message) => HassleFailureView::LibLoadingError(
                message@,
            ),
            HassleFailure::LoadLibraryError {
                filename,
                inner,
            } => HassleFailureView::LoadLibraryError { filename: filename@, inner: inner@ },
            HassleFailure::Win32Error(code) => HassleFailureView::Win32Error(code@),
            HassleFailure::WindowsOnly(message) => HassleFailureView::WindowsOnly(message@),
            HassleFailure::Other(message) => HassleFailureView::Other(message@),
        }
    }
}

/// The batch that reports a failure of the toolchain.
pub open spec fn failure_report(failure: HassleFailureView) -> Seq<ShaderErrorView> {
    match failure {
        HassleFailureView::CompileError(text) => ErrorFormat::Dxc.failure_report(text),
        HassleFailureView::LibLoadingError(message) => seq![ShaderErrorView::InternalErr(message)],
        HassleFailureView::LoadLibraryError { filename, inner } => seq![
            ShaderErrorView::InternalErr("Failed to load library "@ + filename + ": "@ + inner),
        ],
        HassleFailureView::Win32Error(code) => seq![
            ShaderErrorView::InternalErr("Win32 error: HRESULT="@ + code),
        ],
        HassleFailureView::WindowsOnly(message) => seq![
            ShaderErrorView::InternalErr("Windows only error: "@ + message),
        ],
        HassleFailureView::Other(message) => seq![ShaderErrorView::InternalErr(message)],
    }
}

/// What comes after a compilation.
#[derive(Debug, PartialEq, Eq)]
pub enum AfterCompile {
    /// The compiled code is to be validated.
    Validate,
    /// The check is over, with this result.
    Done(Result<(), ShaderErrorList>),
}

/// Parses the error text of a failed compilation. Each
/// `file:line:column: severity: message` header yields one diagnostic.
pub fn parse_dxc_errors(errors: &str) -> (r: Result<ShaderErrorList, ShaderErrorList>)
    ensures
        match ErrorFormat::Dxc.outcome(errors@) {
            Ok(list) => r is Ok && r->Ok_0@ == list,
            Err(list) => r is Err && r->Err_0@ == list,
        },
{
    ErrorFormat::Dxc.parse(errors)
}

/// The name under which a source is compiled: the file's own name, or
/// `shader.hlsl` where it has none that is text.
pub fn source_name<'a>(file_name: Option<&'a str>) -> (name: &'a str)
    ensures
        name@ == match file_name {
            Some(given) => given@,
            None => "shader.hlsl"@,
        },
{
    match file_name {
        Some(given) => given,
        None => "shader.hlsl",
    }
}

/// The profile that every source is compiled for: a library of shader
/// model 6.5.
pub fn target_profile() -> (profile: &'static str)
    ensures
        profile@ == "lib_6_5"@,
{
    "lib_6_5"
}

impl HassleFailure {
    /// Turns a failure of the toolchain into diagnostics. The error text
    /// of a compilation is parsed; every other failure becomes one internal
    /// error that describes it.
    pub fn into_errors(self) -> (list: ShaderErrorList)
        ensures
            list@ == failure_report(self@),
            list@.len() > 0,
    {
        match self {
            HassleFailure::CompileError(text) => ErrorFormat::Dxc.report_failure(text.as_str()),
            HassleFailure::LibLoadingError(message) => ShaderErrorList::internal(message),
            HassleFailure::LoadLibraryError { filename, inner } => {
                let mut message = join("Failed to load library ", filename.as_str());
                message.append(": ");
                message.append(inner.as_str());
                assert(message@ =~= "Failed to load library "@ + filename@ + ": "@ + inner@);
                ShaderErrorList::internal(message)
            },
            HassleFailure::Win32Error(code) => ShaderErrorList::internal(
                join("Win32 error: HRESULT=", code.as_str()),
            ),
            HassleFailure::WindowsOnly(message) => ShaderErrorList::internal(
                join("Windows only error: ", message.as_str()),
            ),
            HassleFailure::Other(message) => ShaderErrorList::internal(message),
        }
    }
}

/// Decides what follows a compilation. A failed one ends the check with
/// the diagnostics parsed from its error text. A successful one is
/// validated where a validator is at hand, and else ends the check with
/// success.
pub fn after_compile(compiled: Result<(), String>, can_validate: bool) -> (next: AfterCompile)
    ensures
        match compiled {
            Err(text) => next matches AfterCompile::Done(Err(list)) && list@
                == ErrorFormat::Dxc.failure_report(text@),
            Ok(_) => if can_validate {
                next is Validate
            } else {
                next matches AfterCompile::Done(Ok(_))
            },
        },
{
    match compiled {
        Err(text) => AfterCompile::Done(Err(HassleFailure::CompileError(text).into_errors())),
        Ok(_) => if can_validate {
            AfterCompile::Validate
        } else {
            AfterCompile::Done(Ok(()))
        },
    }
}

/// The result of a check once the compiled code has been validated: a
/// refusal is reported as one internal error that holds the validator's
/// text.
pub fn after_validation(validated: Result<(), String>) -> (r: Result<(), ShaderErrorList>)
    ensures
        match validated {
            Ok(_) => r is Ok,
            Err(text) => r is Err && r->Err_0@ == seq![
                ShaderErrorView::InternalErr("Validation failed: "@ + text@),
            ],
        },
{
    match validated {
        Ok(_) => Ok(()),
        Err(text) => Err(ShaderErrorList::internal(join("Validation failed: ", text.as_str()))),
    }
}

/// The symbol tree of a source, given whether it compiled: the compiler
/// exposes no declarations, so the tree of a source that compiles is
/// empty, and one that does not compile has none.
pub fn tree_after_compile(compiled: bool) -> (r: Result<ShaderTree, ShaderErrorList>)
    ensures
        compiled ==> r is Ok && r->Ok_0@.types.len() == 0 && r->Ok_0@.global_variables.len() == 0
            && r->Ok_0@.functions.len() == 0,
        !compiled ==> r is Err && r->Err_0@ == seq![
            ShaderErrorView::InternalErr("Failed to get reflection data from shader"@),
        ],
{
    if compiled {
        Ok(ShaderTree::default())
    } else {
        Err(ShaderErrorList::internal("Failed to get reflection data from shader".to_owned()))
    }
}

} // verus!

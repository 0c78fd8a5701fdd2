//! The GLSL backend.

use crate::common::{empty_tree, Listing, ListingView, ShaderTree, Validator};
use crate::compiler::{
    prepare, prepared, CompileSettings, CompileTarget, SourceKind, Stage, Validation,
};
use crate::error_text::ErrorFormat;
use crate::shader_error::ShaderErrorList;
use vstd::prelude::*;

verus! {

/// The validator for GLSL. It keeps nothing between two calls.
#[derive(Clone, Copy, Debug, PartialEq, Eq, Structural)]
pub struct Glsl {}

impl Glsl {
    /// A validator for GLSL.
    pub fn new() -> (validator: Self)
        ensures
            validator == (Glsl {  }),
    {
        Self {  }
    }

    /// The settings under which GLSL is checked: as a fragment shader for
    /// Vulkan 1.3 and SPIR-V 1.6, with cascading errors and debug
    /// information.
    pub open spec fn spec_settings() -> CompileSettings {
        CompileSettings {
            language: SourceKind::Glsl,
            stage: Stage::Fragment,
            target: CompileTarget::Vulkan1_3,
            cascading_errors: true,
            debug_info: true,
        }
    }

    /// The settings under which GLSL is checked.
    #[verifier::when_used_as_spec(spec_settings)]
    pub fn settings() -> (settings: CompileSettings)
        ensures
            settings == Self::spec_settings(),
    {
        CompileSettings {
            language: SourceKind::Glsl,
            stage: Stage::Fragment,
            target: CompileTarget::Vulkan1_3,
            cascading_errors: true,
            debug_info: true,
        }
    }

    /// Parses the log of a failed compilation. Each `SEVERITY: n:line:`
    /// header yields one diagnostic; the column is always 0, since the log
    /// gives none.
    pub fn parse_errors(errors: &str) -> (r: Result<ShaderErrorList, ShaderErrorList>)
        ensures
            match ErrorFormat::Glslang.outcome(errors@) {
                Ok(list) => r is Ok && r->Ok_0@ == list,
                Err(list) => r is Err && r->Err_0@ == list,
            },
    {
        ErrorFormat::Glslang.parse(errors)
    }
}

impl Validator for Glsl {
    /// Starts the check of a GLSL source: a source with a NUL character is
    /// refused, every other one is to be compiled under the settings of
    /// this backend.
    fn validate_shader(&mut self, source: &str) -> (v: Validation)
        ensures
            v@ == prepared(source@, Self::spec_settings()),
    {
        prepare(source, Self::settings())
    }

    /// The backend lists no symbols: the tree is always empty, and nothing
    /// has to run for it.
    fn get_shader_tree(&mut self, source: &str) -> (r: Listing)
        ensures
            r@ == ListingView::Done(Ok(empty_tree())),
    {
        Listing::Done(Ok(ShaderTree::default()))
    }
}

} // verus!

//! The HLSL backend, which checks HLSL with the glslang compiler.

use crate::common::{Listing, ListingView, Validator};
use crate::compiler::{
    prepare, prepared, CompileSettings, CompileTarget, SourceKind, Stage, Validation,
};
use crate::shader_error::ShaderErrorList;
use vstd::prelude::*;

verus! {

/// The validator for HLSL. It keeps nothing between two calls.
#[derive(Clone, Copy, Debug, PartialEq, Eq, Structural)]
pub struct Hlsl {}

impl Hlsl {
    /// A validator for HLSL.
    pub fn new() -> (validator: Self)
        ensures
            validator == (Hlsl {  }),
    {
        Self {  }
    }

    /// The settings under which HLSL is checked: as a fragment shader for
    /// SPIR-V 1.6 without an environment, with cascading errors and debug
    /// information.
    pub open spec fn spec_settings() -> CompileSettings {
        CompileSettings {
            language: SourceKind::Hlsl,
            stage: Stage::Fragment,
            target: CompileTarget::Spirv1_6,
            cascading_errors: true,
            debug_info: true,
        }
    }

    /// The settings under which HLSL is checked.
    #[verifier::when_used_as_spec(spec_settings)]
    pub fn settings() -> (settings: CompileSettings)
        ensures
            settings == Self::spec_settings(),
    {
        CompileSettings {
            language: SourceKind::Hlsl,
            stage: Stage::Fragment,
            target: CompileTarget::Spirv1_6,
            cascading_errors: true,
            debug_info: true,
        }
    }
}

impl Validator for Hlsl {
    /// Starts the check of an HLSL source: a source with a NUL character is
    /// refused, every other one is to be compiled under the settings of
    /// this backend.
    fn validate_shader(&mut self, source: &str) -> (v: Validation)
        ensures
            v@ == prepared(source@, Self::spec_settings()),
    {
        prepare(source, Self::settings())
    }

    /// The backend lists no symbols, and says so with an empty batch of
    /// errors rather than with a made-up tree. Nothing has to run for it.
    fn get_shader_tree(&mut self, source: &str) -> (r: Listing)
        ensures
            r@ == ListingView::Done(Err(Seq::empty())),
    {
        Listing::Done(Err(ShaderErrorList::empty()))
    }
}

} // verus!

//! The WGSL backend: `naga` parses and validates, and this module turns
//! what it reports into diagnostics and symbol trees. Running the parser
//! and the validator is left to the caller, since both can panic on a
//! source; the module that the parser builds is read here.

use crate::common::{
    entries_view, named, named_entries, Listing, ListingView, ShaderTree, ShaderTreeView,
    Validator,
};
use crate::compiler::{Validation, ValidationView};
use crate::shader_error::{ShaderError, ShaderErrorList, ShaderErrorSeverity, ShaderErrorView};
use vstd::prelude::*;

verus! {

/// `naga::Module`, a parsed shader. Nothing of its inside is known here
/// but the names of its declarations.
#[verifier::external_type_specification]
#[verifier::external_body]
pub struct ExModule(naga::Module);

/// What the WGSL parser reports when it refuses a source.
#[derive(Clone, Debug, PartialEq, Eq)]
pub struct ParseFailure {
    /// The parser's rendering of the error against the source.
    pub message: String,
    /// Line and column of the first place that the error points at, both
    /// counted from 1; `None` where it points nowhere.
    pub location: Option<(u32, u32)>,
}

/// The mathematical value of a [`ParseFailure`].
pub struct ParseFailureView {
    pub message: Seq<char>,
    pub location: Option<(u32, u32)>,
}

impl View for ParseFailure {
    type V = ParseFailureView;

    open spec fn view(&self) -> ParseFailureView {
        ParseFailureView { message: self.message@, location: self.location }
    }
}

/// The declarations of a module as far as a symbol tree reads them: the
/// name, if any, of each type, global variable and function, in the order
/// in which the module holds them.
pub struct ModuleEntries {
    pub types: Seq<Option<Seq<char>>>,
    pub global_variables: Seq<Option<Seq<char>>>,
    pub functions: Seq<Option<Seq<char>>>,
}

/// The name, if any, of each type that `Module::types` holds, in the
/// order of the arena.
pub uninterp spec fn module_type_names(module: naga::Module) -> Seq<Option<Seq<char>>>;

/// The name, if any, of each variable that `Module::global_variables`
/// holds, in the order of the arena.
pub uninterp spec fn module_global_names(module: naga::Module) -> Seq<Option<Seq<char>>>;

/// The name, if any, of each function that `Module::functions` holds, in
/// the order of the arena.
pub uninterp spec fn module_function_names(module: naga::Module) -> Seq<Option<Seq<char>>>;

/// The declarations that a parsed module holds.
pub open spec fn module_entries(module: naga::Module) -> ModuleEntries {
    ModuleEntries {
        types: module_type_names(module),
        global_variables: module_global_names(module),
        functions: module_function_names(module),
    }
}

/// What the parser and the validator said of a source.
#[derive(Clone, Debug, PartialEq, Eq)]
pub enum Analysis {
    /// The parser refused the source.
    Refused(ParseFailure),
    /// The parser built a module that did not pass validation; holds the
    /// validator's rendering of what is wrong.
    Invalid(String),
    /// The parser built a module, and it passed validation.
    Valid,
}

/// The mathematical value of an [`Analysis`].
pub enum AnalysisView {
    Refused(ParseFailureView),
    Invalid(Seq<char>),
    Valid,
}

impl View for Analysis {
    type V = AnalysisView;

    open spec fn view(&self) -> AnalysisView {
        match *self {
            Analysis::Refused(failure) => AnalysisView::Refused(failure@),
            Analysis::Invalid(emitted) => AnalysisView::Invalid(emitted@),
            Analysis::Valid => AnalysisView::Valid,
        }
    }
}

/// Walks `Module::types` and copies out the name of each type.
#[verifier::external_body]
fn type_names(module: &naga::Module) -> (names: Vec<Option<String>>)
    ensures
        entries_view(names@) == module_type_names(*module),
{
    module.types.iter().map(|(_, ty)| ty.name.clone()).collect()
}

/// Walks `Module::global_variables` and copies out the name of each.
#[verifier::external_body]
fn global_variable_names(module: &naga::Module) -> (names: Vec<Option<String>>)
    ensures
        entries_view(names@) == module_global_names(*module),
{
    module.global_variables.iter().map(|(_, var)| var.name.clone()).collect()
}

/// Walks `Module::functions` and copies out the name of each function.
#[verifier::external_body]
fn function_names(module: &naga::Module) -> (names: Vec<Option<String>>)
    ensures
        entries_view(names@) == module_function_names(*module),
{
    module.functions.iter().map(|(_, f)| f.name.clone()).collect()
}

/// The diagnostic that stands for a refusal of the parser: an error at the
/// place that the parser points at, or at 0, 0 where it points nowhere.
pub open spec fn parser_error(failure: ParseFailureView) -> ShaderErrorView {
    ShaderErrorView::ParserErr {
        severity: ShaderErrorSeverity::Error,
        error: failure.message,
        line: match failure.location {
            Some(at) => at.0 as nat,
            None => 0,
        },
        pos: match failure.location {
            Some(at) => at.1 as nat,
            None => 0,
        },
    }
}

/// The symbol tree of a module: the names of its named declarations.
pub open spec fn tree_of(entries: ModuleEntries) -> ShaderTreeView {
    ShaderTreeView {
        types: named(entries.types),
        global_variables: named(entries.global_variables),
        functions: named(entries.functions),
    }
}

/// The validator for WGSL. It keeps nothing between two calls.
#[derive(Clone, Copy, Debug, PartialEq, Eq, Structural)]
pub struct Naga {}

impl Naga {
    /// What a validation of `source` gives, given what the parser and the
    /// validator said of it: the parser's error where the source was
    /// refused; nothing where the module passed validation; else one
    /// validation error that holds the source and the validator's
    /// rendering of what is wrong.
    pub open spec fn validation(source: Seq<char>, analysis: AnalysisView) -> Result<
        (),
        Seq<ShaderErrorView>,
    > {
        match analysis {
            AnalysisView::Refused(failure) => Err(seq![parser_error(failure)]),
            AnalysisView::Invalid(emitted) => Err(
                seq![ShaderErrorView::ValidationErr { src: source, emitted }],
            ),
            AnalysisView::Valid => Ok(()),
        }
    }

    /// A validator for WGSL.
    pub fn new() -> (validator: Self)
        ensures
            validator == (Naga {  }),
    {
        Self {  }
    }

    /// Turns a refusal of the parser into a diagnostic.
    pub fn from_parse_err(err: ParseFailure) -> (error: ShaderError)
        ensures
            error@ == parser_error(err@),
    {
        match err.location {
            Some(at) => ShaderError::ParserErr {
                severity: ShaderErrorSeverity::Error,
                error: err.message,
                line: at.0 as usize,
                pos: at.1 as usize,
            },
            None => ShaderError::ParserErr {
                severity: ShaderErrorSeverity::Error,
                error: err.message,
                line: 0,
                pos: 0,
            },
        }
    }

    /// Turns what the parser and the validator said of a source into the
    /// result of its validation.
    pub fn report(source: &str, analysis: Analysis) -> (r: Result<(), ShaderErrorList>)
        ensures
            match Self::validation(source@, analysis@) {
                Ok(_) => r is Ok,
                Err(list) => r is Err && r->Err_0@ == list,
            },
    {
        match analysis {
            Analysis::Refused(failure) => Err(
                ShaderErrorList::from_error(Self::from_parse_err(failure)),
            ),
            Analysis::Invalid(emitted) => Err(
                ShaderErrorList::from_error(
                    ShaderError::ValidationErr { src: source.to_owned(), emitted },
                ),
            ),
            Analysis::Valid => Ok(()),
        }
    }

    /// The symbol tree of a parsed module: the names of its types, global
    /// variables and functions, each list in the order of the module, with
    /// the declarations that have no name passed over.
    pub fn tree_of_module(module: &naga::Module) -> (tree: ShaderTree)
        ensures
            tree@ == tree_of(module_entries(*module)),
    {
        ShaderTree {
            types: named_entries(type_names(module)),
            global_variables: named_entries(global_variable_names(module)),
            functions: named_entries(function_names(module)),
        }
    }

    /// Turns what the parser made of a source into the result of listing
    /// its symbols: the tree of the module, or the parser's error.
    pub fn tree_report(parsed: Result<naga::Module, ParseFailure>) -> (r: Result<
        ShaderTree,
        ShaderErrorList,
    >)
        ensures
            match parsed {
                Ok(module) => r is Ok && r->Ok_0@ == tree_of(module_entries(module)),
                Err(failure) => r is Err && r->Err_0@ == seq![parser_error(failure@)],
            },
    {
        match parsed {
            Ok(module) => Ok(Self::tree_of_module(&module)),
            Err(failure) => Err(ShaderErrorList::from_error(Self::from_parse_err(failure))),
        }
    }
}

impl Validator for Naga {
    /// The parser and the validator have to run on every source.
    fn validate_shader(&mut self, source: &str) -> (v: Validation)
        ensures
            v@ == ValidationView::Parse,
    {
        Validation::Parse
    }

    /// The parser has to run on every source.
    fn get_shader_tree(&mut self, source: &str) -> (r: Listing)
        ensures
            r@ == ListingView::Parse,
    {
        Listing::Parse
    }
}

} // verus!

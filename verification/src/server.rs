//! The dispatcher: the response format, the choice of a backend for a
//! shading language, the routing of requests, and the state of the request
//! loop. Reading requests and files and writing responses is left to the
//! caller.

use crate::common::{
    empty_tree, Listing, ListingView, ShaderTree, ShadingLanguage, Validator,
};
use crate::compiler::{
    lemma_failed_run_has_diagnostics, prepared, report_run, run_report, run_view,
    CompileSettings, GlslangFailure, GlslangFailureView, Validation, ValidationView,
};
use crate::glsl::Glsl;
use crate::hlsl::Hlsl;
use crate::shader_error::{
    ShaderError, ShaderErrorList, ShaderErrorSeverity, ShaderErrorView,
};
use crate::text::{join, same_text};
use crate::wgsl::{module_entries, tree_of, Analysis, AnalysisView, Naga, ParseFailure};
use vstd::prelude::*;
use vstd::string::*;

verus! {

/// One diagnostic as a response carries it.
#[derive(Clone, Debug, PartialEq, Eq)]
pub enum ValidateFileError {
    ParserErr { severity: String, error: String, scopes: Vec<String>, line: usize, pos: usize },
    ValidationErr { message: String, debug: String },
    UnknownError(String),
}

/// The mathematical value of a [`ValidateFileError`].
pub enum ValidateFileErrorView {
    ParserErr {
        severity: Seq<char>,
        error: Seq<char>,
        scopes: Seq<Seq<char>>,
        line: nat,
        pos: nat,
    },
    ValidationErr { message: Seq<char>, debug: Seq<char> },
    UnknownError(Seq<char>),
}

impl View for ValidateFileError {
    type V = ValidateFileErrorView;

    open spec fn view(&self) -> ValidateFileErrorView {
        match *self {
            ValidateFileError::ParserErr {
                severity,
                error,
                scopes,
                line,
                pos,
            } => ValidateFileErrorView::ParserErr {
                severity: severity@,
                error: error@,
                scopes: scopes@.map_values(|s: String| s@),
                line: line as nat,
                pos: pos as nat,
            },
            ValidateFileError::ValidationErr {
                message,
                debug,
            } => ValidateFileErrorView::ValidationErr { message: message@, debug: debug@ },
            ValidateFileError::UnknownError(message) => ValidateFileErrorView::UnknownError(
                message@,
            ),
        }
    }
}

/// How a diagnostic is written into a response. A located diagnostic keeps
/// severity, message, line and column; a validation error becomes a pair
/// of message and debug text; anything else becomes an unknown error with
/// its text.
pub open spec fn encoded(error: ShaderErrorView) -> ValidateFileErrorView {
    match error {
        ShaderErrorView::ParserErr { severity, error, line, pos } => ValidateFileErrorView::ParserErr {
            severity: severity.label(),
            error,
            scopes: Seq::empty(),
            line,
            pos,
        },
        ShaderErrorView::ValidationErr { src, emitted } => ValidateFileErrorView::ValidationErr {
            message: src,
            debug: emitted,
        },
        ShaderErrorView::InternalErr(message) => ValidateFileErrorView::UnknownError(message),
        ShaderErrorView::IoErr(message) => ValidateFileErrorView::UnknownError(message),
    }
}

/// The diagnostic that a response entry stands for. An entry with a
/// severity tag that is none of the four stands for none.
pub open spec fn decoded(entry: ValidateFileErrorView) -> Option<ShaderErrorView> {
    match entry {
        ValidateFileErrorView::ParserErr {
            severity,
            error,
            scopes,
            line,
            pos,
        } => match ShaderErrorSeverity::of_label(severity) {
            Some(severity) => Some(ShaderErrorView::ParserErr { severity, error, line, pos }),
            None => None,
        },
        ValidateFileErrorView::ValidationErr { message, debug } => Some(
            ShaderErrorView::ValidationErr { src: message, emitted: debug },
        ),
        ValidateFileErrorView::UnknownError(message) => Some(ShaderErrorView::InternalErr(message)),
    }
}

/// Writing a diagnostic into a response and reading it back keeps it as it
/// was: severity, message, line and column of a located diagnostic, and
/// both texts of a validation error. Only an unreadable source comes back
/// as an internal error, with its message.
pub proof fn lemma_response_round_trip(error: ShaderErrorView)
    ensures
        decoded(encoded(error)) == Some(
            match error {
                ShaderErrorView::IoErr(message) => ShaderErrorView::InternalErr(message),
                other => other,
            },
        ),
{
    if let ShaderErrorView::ParserErr { severity, .. } = error {
        ShaderErrorSeverity::lemma_label_round_trip(severity);
    }
}

impl ValidateFileError {
    /// Writes a diagnostic as a response entry.
    pub fn from_error(error: &ShaderError) -> (entry: Self)
        ensures
            entry@ == encoded(error@),
    {
        match error {
            ShaderError::ParserErr { severity, error, line, pos } => {
                let entry = ValidateFileError::ParserErr {
                    severity: severity.to_string(),
                    error: error.clone(),
                    scopes: Vec::new(),
                    line: *line,
                    pos: *pos,
                };
                assert(entry@->ParserErr_scopes =~= Seq::<Seq<char>>::empty());
                entry
            },
            ShaderError::ValidationErr { src, emitted } => ValidateFileError::ValidationErr {
                message: src.clone(),
                debug: emitted.clone(),
            },
            ShaderError::InternalErr(message) => ValidateFileError::UnknownError(message.clone()),
            ShaderError::IoErr(message) => ValidateFileError::UnknownError(message.clone()),
        }
    }

    /// Reads a response entry back as a diagnostic.
    pub fn to_error(&self) -> (error: Option<ShaderError>)
        ensures
            match decoded(self@) {
                Some(view) => error is Some && error->Some_0@ == view,
                None => error is None,
            },
    {
        match self {
            ValidateFileError::ParserErr {
                severity,
                error,
                scopes,
                line,
                pos,
            } => match ShaderErrorSeverity::from_label(severity.as_str()) {
                Some(severity) => Some(
                    ShaderError::ParserErr {
                        severity,
                        error: error.clone(),
                        line: *line,
                        pos: *pos,
                    },
                ),
                None => None,
            },
            ValidateFileError::ValidationErr { message, debug } => Some(
                ShaderError::ValidationErr { src: message.clone(), emitted: debug.clone() },
            ),
            ValidateFileError::UnknownError(message) => Some(
                ShaderError::InternalErr(message.clone()),
            ),
        }
    }
}

/// The answer to a request that asks for the validation of a file.
#[derive(Clone, Debug, PartialEq, Eq)]
pub struct ValidateFileResponse {
    pub is_ok: bool,
    pub messages: Vec<ValidateFileError>,
}

/// The mathematical value of a [`ValidateFileResponse`].
pub struct ValidateFileResponseView {
    pub is_ok: bool,
    pub messages: Seq<ValidateFileErrorView>,
}

impl View for ValidateFileResponse {
    type V = ValidateFileResponseView;

    open spec fn view(&self) -> ValidateFileResponseView {
        ValidateFileResponseView {
            is_ok: self.is_ok,
            messages: self.messages@.map_values(|m: ValidateFileError| m@),
        }
    }
}

/// The response that reports the result of a validation.
pub open spec fn response_of(result: Result<(), Seq<ShaderErrorView>>) -> ValidateFileResponseView {
    match result {
        Ok(_) => ValidateFileResponseView { is_ok: true, messages: Seq::empty() },
        Err(list) => ValidateFileResponseView {
            is_ok: false,
            messages: list.map_values(|e: ShaderErrorView| encoded(e)),
        },
    }
}

/// The mathematical value of the result of a validation.
pub open spec fn result_view(result: Result<(), ShaderErrorList>) -> Result<
    (),
    Seq<ShaderErrorView>,
> {
    match result {
        Ok(_) => Ok(()),
        Err(list) => Err(list@),
    }
}

impl ValidateFileResponse {
    /// The response to a file that passed: no messages.
    pub fn ok() -> (response: Self)
        ensures
            response@ == response_of(Ok(())),
    {
        let response = Self { is_ok: true, messages: Vec::new() };
        assert(response@.messages =~= Seq::<ValidateFileErrorView>::empty());
        response
    }

    /// The response to a file that failed: each diagnostic of the batch as
    /// one message, in the order of the batch.
    pub fn error(error_list: &ShaderErrorList) -> (response: Self)
        ensures
            response@ == response_of(Err(error_list@)),
    {
        let mut errors: Vec<ValidateFileError> = Vec::new();
        let ghost expected = error_list@.map_values(|e: ShaderErrorView| encoded(e));
        let mut i: usize = 0;
        while i < error_list.errors.len()
            invariant
                i <= error_list.errors.len(),
                expected == error_list@.map_values(|e: ShaderErrorView| encoded(e)),
                errors@.map_values(|m: ValidateFileError| m@) == expected.take(i as int),
            decreases error_list.errors.len() - i,
        {
            let ghost before = errors@.map_values(|m: ValidateFileError| m@);
            let entry = ValidateFileError::from_error(&error_list.errors[i]);
            assert(error_list@[i as int] == error_list.errors@[i as int]@);
            assert(expected[i as int] == entry@);
            errors.push(entry);
            assert(errors@.map_values(|m: ValidateFileError| m@) =~= before.push(entry@));
            assert(expected.take(i + 1) =~= expected.take(i as int).push(expected[i as int]));
            i += 1;
        }
        assert(expected.take(i as int) =~= expected);
        Self { is_ok: false, messages: errors }
    }

    /// The response that reports the result of a validation.
    pub fn from_result(result: &Result<(), ShaderErrorList>) -> (response: Self)
        ensures
            response@ == response_of(result_view(*result)),
    {
        match result {
            Ok(_) => Self::ok(),
            Err(list) => Self::error(list),
        }
    }
}

/// The backend of one of the three shading languages.
#[derive(Clone, Copy, Debug, PartialEq, Eq, Structural)]
pub enum Backend {
    Wgsl(Naga),
    Hlsl(Hlsl),
    Glsl(Glsl),
}

impl Backend {
    /// The language that the backend checks.
    pub open spec fn language(self) -> ShadingLanguage {
        match self {
            Backend::Wgsl(_) => ShadingLanguage::Wgsl,
            Backend::Hlsl(_) => ShadingLanguage::Hlsl,
            Backend::Glsl(_) => ShadingLanguage::Glsl,
        }
    }
}

/// What a validation of `source` as `language` starts with. For WGSL the
/// parser and the validator have to run. GLSL and HLSL are to be compiled
/// under the settings of their backend, unless the source holds a NUL
/// character.
pub open spec fn validation_of(language: ShadingLanguage, source: Seq<char>) -> ValidationView {
    match language {
        ShadingLanguage::Wgsl => ValidationView::Parse,
        ShadingLanguage::Hlsl => prepared(source, Hlsl::spec_settings()),
        ShadingLanguage::Glsl => prepared(source, Glsl::spec_settings()),
    }
}

/// What listing the symbols of a source as `language` starts with. For
/// WGSL the parser has to run. GLSL has an empty tree, and HLSL has none,
/// which it says with an empty batch of errors.
pub open spec fn listing_of(language: ShadingLanguage) -> ListingView {
    match language {
        ShadingLanguage::Wgsl => ListingView::Parse,
        ShadingLanguage::Hlsl => ListingView::Done(Err(Seq::empty())),
        ShadingLanguage::Glsl => ListingView::Done(Ok(empty_tree())),
    }
}

/// Failure implies diagnostics: whatever the language and the source, a
/// validation that fails gives at least one diagnostic, whether it fails
/// before a backend runs, through the run of the compiler, or through
/// what the parser and the validator say.
pub proof fn lemma_failure_implies_diagnostics(
    language: ShadingLanguage,
    source: Seq<char>,
    run: Option<Result<(), GlslangFailureView>>,
    analysis: AnalysisView,
)
    ensures
        validation_of(language, source) matches ValidationView::Done(Err(list)) ==> list.len()
            > 0,
        run_report(run) matches Err(list) ==> list.len() > 0,
        Naga::validation(source, analysis) matches Err(list) ==> list.len() > 0,
        !response_of(run_report(run)).is_ok ==> response_of(run_report(run)).messages.len() > 0,
        !response_of(Naga::validation(source, analysis)).is_ok ==> response_of(
            Naga::validation(source, analysis),
        ).messages.len() > 0,
{
    lemma_failed_run_has_diagnostics(run);
}

/// A WGSL source that the parser accepts and the validator passes is
/// answered with success and without messages.
pub proof fn lemma_valid_wgsl_is_ok(source: Seq<char>)
    ensures
        response_of(Naga::validation(source, AnalysisView::Valid)) == (ValidateFileResponseView {
            is_ok: true,
            messages: Seq::empty(),
        }),
{
}

impl Validator for Backend {
    /// Starts the check of a source with the backend of its language.
    fn validate_shader(&mut self, source: &str) -> (v: Validation)
        ensures
            v@ == validation_of(old(self).language(), source@),
            *final(self) == *old(self),
    {
        match self {
            Backend::Wgsl(validator) => validator.validate_shader(source),
            Backend::Hlsl(validator) => validator.validate_shader(source),
            Backend::Glsl(validator) => validator.validate_shader(source),
        }
    }

    /// Starts the listing of the symbols of a source with the backend of
    /// its language.
    fn get_shader_tree(&mut self, source: &str) -> (r: Listing)
        ensures
            r@ == listing_of(old(self).language()),
            *final(self) == *old(self),
    {
        match self {
            Backend::Wgsl(validator) => validator.get_shader_tree(source),
            Backend::Hlsl(validator) => validator.get_shader_tree(source),
            Backend::Glsl(validator) => validator.get_shader_tree(source),
        }
    }
}

/// The backend that checks a shading language.
pub fn get_validator(shading_language: ShadingLanguage) -> (validator: Backend)
    ensures
        validator.language() == shading_language,
{
    match shading_language {
        ShadingLanguage::Wgsl => Backend::Wgsl(Naga::new()),
        ShadingLanguage::Hlsl => Backend::Hlsl(Hlsl::new()),
        ShadingLanguage::Glsl => Backend::Glsl(Glsl::new()),
    }
}

/// What a request asks for.
#[derive(Clone, Debug, PartialEq, Eq)]
pub enum Route {
    /// List the symbols of a file in the given language.
    GetFileTree(ShadingLanguage),
    /// Validate a file in the given language.
    ValidateFile(ShadingLanguage),
    /// End the loop.
    Quit,
    /// The parameters are refused; holds the reason.
    InvalidParams(String),
    /// The method is none that the server offers.
    MethodNotFound,
}

/// The mathematical value of a [`Route`].
pub enum RouteView {
    GetFileTree(ShadingLanguage),
    ValidateFile(ShadingLanguage),
    Quit,
    InvalidParams(Seq<char>),
    MethodNotFound,
}

impl View for Route {
    type V = RouteView;

    open spec fn view(&self) -> RouteView {
        match *self {
            Route::GetFileTree(language) => RouteView::GetFileTree(language),
            Route::ValidateFile(language) => RouteView::ValidateFile(language),
            Route::Quit => RouteView::Quit,
            Route::InvalidParams(reason) => RouteView::InvalidParams(reason@),
            Route::MethodNotFound => RouteView::MethodNotFound,
        }
    }
}

/// The reason with which an unknown language tag is refused.
pub open spec fn invalid_language(tag: Seq<char>) -> Seq<char> {
    "Invalid shading language: "@ + tag
}

/// Where a request with the given method and language tag goes. The two
/// methods that name a file go to a backend only where the tag names a
/// language; with any other tag the parameters are refused.
pub open spec fn route_of(method: Seq<char>, tag: Seq<char>) -> RouteView {
    if method == "get_file_tree"@ {
        match ShadingLanguage::of_tag(tag) {
            Some(language) => RouteView::GetFileTree(language),
            None => RouteView::InvalidParams(invalid_language(tag)),
        }
    } else if method == "validate_file"@ {
        match ShadingLanguage::of_tag(tag) {
            Some(language) => RouteView::ValidateFile(language),
            None => RouteView::InvalidParams(invalid_language(tag)),
        }
    } else if method == "quit"@ {
        RouteView::Quit
    } else {
        RouteView::MethodNotFound
    }
}

/// Routes a request by its method and its language tag. `quit` takes no
/// parameters, so the tag does not count for it.
pub fn route(method: &str, shading_language: &str) -> (r: Route)
    ensures
        r@ == route_of(method@, shading_language@),
{
    if same_text(method, "get_file_tree") {
        match ShadingLanguage::from_str(shading_language) {
            Ok(language) => Route::GetFileTree(language),
            Err(_) => Route::InvalidParams(join("Invalid shading language: ", shading_language)),
        }
    } else if same_text(method, "validate_file") {
        match ShadingLanguage::from_str(shading_language) {
            Ok(language) => Route::ValidateFile(language),
            Err(_) => Route::InvalidParams(join("Invalid shading language: ", shading_language)),
        }
    } else if same_text(method, "quit") {
        Route::Quit
    } else {
        Route::MethodNotFound
    }
}

/// A language tag that names no language never reaches a backend: a
/// request for validation or for a symbol tree that carries it has its
/// parameters refused.
pub proof fn lemma_unknown_language_is_refused(method: Seq<char>, tag: Seq<char>)
    requires
        ShadingLanguage::of_tag(tag) is None,
    ensures
        !(route_of(method, tag) is ValidateFile),
        !(route_of(method, tag) is GetFileTree),
        method == "validate_file"@ || method == "get_file_tree"@ ==> route_of(method, tag)
            == RouteView::InvalidParams(invalid_language(tag)),
{
}

/// How far a request for validation has come.
#[derive(Debug, PartialEq, Eq)]
pub enum FileValidation {
    /// The response is ready.
    Respond(ValidateFileResponse),
    /// The compiler has to run on `source` under `settings`;
    /// [`compiled_response`] answers with the end of the run.
    Compile { source: String, settings: CompileSettings },
    /// The WGSL parser and validator have to run on `source`;
    /// [`parsed_response`] answers with what they say.
    Parse { source: String },
}

/// The mathematical value of a [`FileValidation`].
pub enum FileValidationView {
    Respond(ValidateFileResponseView),
    Compile { source: Seq<char>, settings: CompileSettings },
    Parse { source: Seq<char> },
}

impl View for FileValidation {
    type V = FileValidationView;

    open spec fn view(&self) -> FileValidationView {
        match *self {
            FileValidation::Respond(response) => FileValidationView::Respond(response@),
            FileValidation::Compile { source, settings } => FileValidationView::Compile {
                source: source@,
                settings,
            },
            FileValidation::Parse { source } => FileValidationView::Parse { source: source@ },
        }
    }
}

/// How far a request for the validation of `source` as `language` comes
/// before a backend runs.
pub open spec fn file_answer(language: ShadingLanguage, source: Seq<char>) -> FileValidationView {
    match validation_of(language, source) {
        ValidationView::Done(result) => FileValidationView::Respond(response_of(result)),
        ValidationView::Compile(settings) => FileValidationView::Compile { source, settings },
        ValidationView::Parse => FileValidationView::Parse { source },
    }
}

/// Takes a request for validation, given the language and what reading
/// the file gave: its text, or the message of the failure to read it. A
/// file that could not be read is answered with that failure. A source
/// whose result is known before a backend runs is answered with it. For
/// every other source a backend has to run first.
pub fn validate_file(shading_language: ShadingLanguage, source: Result<String, String>) -> (answer:
    FileValidation)
    ensures
        match source {
            Err(message) => answer@ == FileValidationView::Respond(
                response_of(Err(seq![ShaderErrorView::IoErr(message@)])),
            ),
            Ok(text) => answer@ == file_answer(shading_language, text@),
        },
        answer matches FileValidation::Respond(response) ==> (!response.is_ok
            ==> response@.messages.len() > 0),
{
    match source {
        Err(message) => FileValidation::Respond(
            ValidateFileResponse::error(&ShaderErrorList::from_io_error(message)),
        ),
        Ok(text) => {
            let mut validator = get_validator(shading_language);
            match validator.validate_shader(text.as_str()) {
                Validation::Done(result) => FileValidation::Respond(
                    ValidateFileResponse::from_result(&result),
                ),
                Validation::Compile(settings) => FileValidation::Compile { source: text, settings },
                Validation::Parse => FileValidation::Parse { source: text },
            }
        },
    }
}

/// Answers a request for validation once the compiler has run: with
/// success where the run succeeded, and else with the diagnostics that the
/// failure of the run becomes, which are never none.
pub fn compiled_response(run: Option<Result<(), GlslangFailure>>) -> (response:
    ValidateFileResponse)
    ensures
        response@ == response_of(run_report(run_view(run))),
        !response.is_ok ==> response@.messages.len() > 0,
{
    proof {
        lemma_failed_run_has_diagnostics(run_view(run));
    }
    let result = report_run(run);
    ValidateFileResponse::from_result(&result)
}

/// Answers a request for the validation of a WGSL source once the parser
/// and the validator have run: with success where both accepted it, and
/// else with the one diagnostic that their refusal becomes.
pub fn parsed_response(source: &str, analysis: Analysis) -> (response: ValidateFileResponse)
    ensures
        response@ == response_of(Naga::validation(source@, analysis@)),
        !response.is_ok ==> response@.messages.len() == 1,
{
    let result = Naga::report(source, analysis);
    ValidateFileResponse::from_result(&result)
}

/// How far a request for a symbol tree has come.
#[derive(Debug, PartialEq, Eq)]
pub enum FileTree {
    /// The answer is ready: the tree, or none.
    Respond(Option<ShaderTree>),
    /// The WGSL parser has to run on `source`; [`parsed_tree`] answers
    /// with what it builds.
    Parse { source: String },
}

/// Takes a request for a symbol tree, given the language and what reading
/// the file gave. A file that could not be read has no tree. GLSL has an
/// empty tree and HLSL has none. For WGSL the parser has to run first.
pub fn get_file_tree(shading_language: ShadingLanguage, source: Result<String, String>) -> (answer:
    FileTree)
    ensures
        match source {
            Err(_) => answer matches FileTree::Respond(None),
            Ok(text) => match listing_of(shading_language) {
                ListingView::Done(Ok(tree)) => answer matches FileTree::Respond(Some(found))
                    && found@ == tree,
                ListingView::Done(Err(_)) => answer matches FileTree::Respond(None),
                ListingView::Parse => answer matches FileTree::Parse { source: handed }
                    && handed@ == text@,
            },
        },
{
    match source {
        Err(_) => FileTree::Respond(None),
        Ok(text) => {
            let mut validator = get_validator(shading_language);
            match validator.get_shader_tree(text.as_str()) {
                Listing::Done(Ok(found)) => FileTree::Respond(Some(found)),
                Listing::Done(Err(_)) => FileTree::Respond(None),
                Listing::Parse => FileTree::Parse { source: text },
            }
        },
    }
}

/// Answers a request for the symbol tree of a WGSL source once the parser
/// has run: with the tree of the module that it built, and with none
/// where it refused the source.
pub fn parsed_tree(parsed: Result<naga::Module, ParseFailure>) -> (tree: Option<ShaderTree>)
    ensures
        match parsed {
            Ok(module) => tree is Some && tree->Some_0@ == tree_of(module_entries(module)),
            Err(_) => tree is None,
        },
{
    match Naga::tree_report(parsed) {
        Ok(found) => Some(found),
        Err(_) => None,
    }
}

/// Whether the request loop still takes requests.
#[derive(Clone, Copy, Debug, PartialEq, Eq, Structural)]
pub enum ServerState {
    Running,
    Stopped,
}

impl ServerState {
    /// Whether a request that arrives in this state is handled: every
    /// request but `quit` while the loop runs, and none once it stopped.
    pub open spec fn handles(self, route: RouteView) -> bool {
        self == ServerState::Running && !(route is Quit)
    }

    /// The state after a request: `quit` stops the loop, and a loop that
    /// stopped stays so.
    pub open spec fn after(self, route: RouteView) -> ServerState {
        if self == ServerState::Running && !(route is Quit) {
            ServerState::Running
        } else {
            ServerState::Stopped
        }
    }

    /// The state after a run of requests.
    pub open spec fn after_all(self, routes: Seq<RouteView>) -> ServerState
        decreases routes.len(),
    {
        if routes.len() == 0 {
            self
        } else {
            self.after_all(routes.drop_last()).after(routes.last())
        }
    }

    /// Takes one request: says whether it is to be handled, and gives the
    /// state in which the next one arrives.
    pub fn step(self, route: &Route) -> (r: (bool, ServerState))
        ensures
            r.0 == self.handles(route@),
            r.1 == self.after(route@),
    {
        match self {
            ServerState::Stopped => (false, ServerState::Stopped),
            ServerState::Running => match route {
                Route::Quit => (false, ServerState::Stopped),
                _ => (true, ServerState::Running),
            },
        }
    }
}

/// Once `quit` has arrived, the loop has stopped and handles no request
/// that comes after it, whatever was queued behind it.
pub proof fn lemma_nothing_after_quit(start: ServerState, routes: Seq<RouteView>, quit: int, later: int)
    requires
        0 <= quit < later < routes.len(),
        routes[quit] is Quit,
    ensures
        start.after_all(routes.take(later)) == ServerState::Stopped,
        !start.after_all(routes.take(later)).handles(routes[later]),
    decreases later - quit,
{
    let before = routes.take(later);
    assert(before.drop_last() =~= routes.take(later - 1));
    assert(before.last() == routes[later - 1]);
    if later - 1 > quit {
        lemma_nothing_after_quit(start, routes, quit, later - 1);
    }
}

} // verus!

use shader_language_server::common::{ShaderTree, ShadingLanguage};
use shader_language_server::server::{
    get_file_tree, parsed_response, parsed_tree, validate_file, FileTree, FileValidation,
    ValidateFileError, ValidateFileResponse,
};
use shader_language_server::shader_error::{ShaderError, ShaderErrorList, ShaderErrorSeverity};
use shader_language_server::wgsl::{Analysis, Naga, ParseFailure};

const VALID_WGSL: &str = "struct Light {\n    color: vec3<f32>,\n}\n\nvar<private> counter: u32;\n\nfn shade(l: Light) -> vec3<f32> {\n    return l.color;\n}\n\n@fragment\nfn main() -> @location(0) vec4<f32> {\n    return vec4<f32>(1.0, 0.0, 0.0, 1.0);\n}\n";

const INVALID_WGSL: &str = "@vertex\nfn vs() -> vec4<f32> {\n    return vec4<f32>(0.0);\n}\n";

fn parse(source: &str) -> Result<naga::Module, ParseFailure> {
    naga::front::wgsl::parse_str(source).map_err(|error| ParseFailure {
        message: error.emit_to_string(source),
        location: error.location(source).map(|at| (at.line_number, at.line_position)),
    })
}

fn analyse(source: &str) -> Analysis {
    let module = match parse(source) {
        Ok(module) => module,
        Err(failure) => return Analysis::Refused(failure),
    };
    let mut validator = naga::valid::Validator::new(
        naga::valid::ValidationFlags::all(),
        naga::valid::Capabilities::all(),
    );
    match validator.validate(&module) {
        Ok(_) => Analysis::Valid,
        Err(error) => Analysis::Invalid(error.emit_to_string(source)),
    }
}

fn answer(source: &str) -> ValidateFileResponse {
    match validate_file(ShadingLanguage::Wgsl, Ok(source.to_string())) {
        FileValidation::Parse { source } => {
            let analysis = analyse(&source);
            parsed_response(&source, analysis)
        }
        other => panic!("unexpected answer {:?}", other),
    }
}

fn tree(source: &str) -> Option<ShaderTree> {
    match get_file_tree(ShadingLanguage::Wgsl, Ok(source.to_string())) {
        FileTree::Parse { source } => parsed_tree(parse(&source)),
        other => panic!("unexpected answer {:?}", other),
    }
}

#[test]
fn valid_wgsl_source_passes() {
    assert_eq!(Naga::report(VALID_WGSL, analyse(VALID_WGSL)), Ok(()));
}

#[test]
fn valid_wgsl_file_is_ok_without_messages() {
    assert_eq!(answer(VALID_WGSL), ValidateFileResponse { is_ok: true, messages: vec![] });
}

#[test]
fn wgsl_syntax_error_is_located() {
    let source = "fn main() {\n    let x = ;\n}\n";
    let list = Naga::report(source, analyse(source)).unwrap_err();
    assert_eq!(list.errors.len(), 1);
    match &list.errors[0] {
        ShaderError::ParserErr { severity, error, line, pos } => {
            assert_eq!(*severity, ShaderErrorSeverity::Error);
            assert!(!error.is_empty());
            assert_eq!(*line, 2);
            assert_eq!(*pos, 13);
        }
        other => panic!("unexpected diagnostic {:?}", other),
    }
}

#[test]
fn wgsl_validation_error_holds_the_source() {
    let list = Naga::report(INVALID_WGSL, analyse(INVALID_WGSL)).unwrap_err();
    assert_eq!(list.errors.len(), 1);
    match &list.errors[0] {
        ShaderError::ValidationErr { src, emitted } => {
            assert_eq!(src, INVALID_WGSL);
            assert!(!emitted.is_empty());
        }
        other => panic!("unexpected diagnostic {:?}", other),
    }
    let response = answer(INVALID_WGSL);
    assert!(!response.is_ok);
    assert_eq!(response.messages.len(), 1);
    assert!(matches!(
        &response.messages[0],
        ValidateFileError::ValidationErr { message, .. } if message == INVALID_WGSL
    ));
}

#[test]
fn wgsl_tree_lists_named_declarations_in_order() {
    let found = tree(VALID_WGSL).unwrap();
    assert!(found.types.contains(&"Light".to_string()));
    assert_eq!(found.global_variables, vec!["counter".to_string()]);
    assert_eq!(found.functions, vec!["shade".to_string()]);
    let module = parse(VALID_WGSL).unwrap();
    assert_eq!(Naga::tree_of_module(&module), found);
    assert_eq!(Naga::tree_report(Ok(module)), Ok(found));
}

#[test]
fn wgsl_tree_of_several_declarations_keeps_their_order() {
    let source = "var<private> b: u32;\nvar<private> a: u32;\nfn z() {}\nfn y() {}\nfn x() {}\n";
    let found = tree(source).unwrap();
    assert_eq!(found.global_variables, vec!["b".to_string(), "a".to_string()]);
    assert_eq!(found.functions, vec!["z".to_string(), "y".to_string(), "x".to_string()]);
}

#[test]
fn wgsl_tree_of_a_source_that_does_not_parse_is_none() {
    assert_eq!(tree("fn ("), None);
    let refused = parse("fn (").unwrap_err();
    assert_eq!(
        Naga::tree_report(Err(refused.clone())),
        Err(ShaderErrorList { errors: vec![Naga::from_parse_err(refused)] })
    );
}

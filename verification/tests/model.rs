use shader_language_server::common::{named_entries, ShaderTree};
use shader_language_server::compiler::{
    holds_nul, prepare, report_run, CompileSettings, CompileTarget, GlslangFailure, SourceKind,
    Stage, Validation,
};
use shader_language_server::dxc::{
    after_compile, after_validation, source_name, target_profile, tree_after_compile,
    AfterCompile, HassleFailure,
};
use shader_language_server::error_text::ErrorFormat;
use shader_language_server::glsl::Glsl;
use shader_language_server::hlsl::Hlsl;
use shader_language_server::shader_error::{ShaderError, ShaderErrorList, ShaderErrorSeverity};
use shader_language_server::wgsl::{Analysis, Naga, ParseFailure};

fn internal(message: &str) -> ShaderErrorList {
    ShaderErrorList { errors: vec![ShaderError::InternalErr(message.to_string())] }
}

#[test]
fn batches_are_built_in_order() {
    assert_eq!(ShaderErrorList::empty(), ShaderErrorList { errors: vec![] });
    assert_eq!(ShaderErrorList::internal("boom".to_string()), internal("boom"));
    assert_eq!(
        ShaderErrorList::from_io_error("denied".to_string()),
        ShaderErrorList { errors: vec![ShaderError::IoErr("denied".to_string())] }
    );
    let first = ShaderError::InternalErr("1".to_string());
    let second = ShaderError::IoErr("2".to_string());
    let mut list = ShaderErrorList::from_error(first.clone());
    list.push(second.clone());
    assert_eq!(list.errors, vec![first, second]);
}

#[test]
fn severities_have_their_tags() {
    assert_eq!(ShaderErrorSeverity::Error.to_string(), "error");
    assert_eq!(ShaderErrorSeverity::Warning.to_string(), "warning");
    assert_eq!(ShaderErrorSeverity::Information.to_string(), "info");
    assert_eq!(ShaderErrorSeverity::Hint.to_string(), "hint");
    assert_eq!(ShaderErrorSeverity::from_label("error"), Some(ShaderErrorSeverity::Error));
    assert_eq!(ShaderErrorSeverity::from_label("warning"), Some(ShaderErrorSeverity::Warning));
    assert_eq!(ShaderErrorSeverity::from_label("info"), Some(ShaderErrorSeverity::Information));
    assert_eq!(ShaderErrorSeverity::from_label("hint"), Some(ShaderErrorSeverity::Hint));
    assert_eq!(ShaderErrorSeverity::from_label("ERROR"), None);
    assert_eq!(ShaderErrorSeverity::from_label("information"), None);
    assert_eq!(ShaderErrorSeverity::from_label(""), None);
}

#[test]
fn entries_without_a_name_are_passed_over() {
    let entries = vec![
        None,
        Some("a".to_string()),
        None,
        None,
        Some("b".to_string()),
        Some("a".to_string()),
        None,
    ];
    assert_eq!(named_entries(entries), vec!["a".to_string(), "b".to_string(), "a".to_string()]);
    assert_eq!(named_entries(vec![]), Vec::<String>::new());
    assert_eq!(named_entries(vec![None, None]), Vec::<String>::new());
    assert_eq!(
        ShaderTree::default(),
        ShaderTree { types: vec![], global_variables: vec![], functions: vec![] }
    );
}

#[test]
fn parser_refusals_become_located_errors() {
    assert_eq!(
        Naga::from_parse_err(ParseFailure { message: "m".to_string(), location: Some((3, 9)) }),
        ShaderError::ParserErr {
            severity: ShaderErrorSeverity::Error,
            error: "m".to_string(),
            line: 3,
            pos: 9,
        }
    );
    assert_eq!(
        Naga::from_parse_err(ParseFailure { message: "m".to_string(), location: None }),
        ShaderError::ParserErr {
            severity: ShaderErrorSeverity::Error,
            error: "m".to_string(),
            line: 0,
            pos: 0,
        }
    );
}

#[test]
fn answers_of_parser_and_validator_become_results() {
    assert_eq!(Naga::report("src", Analysis::Valid), Ok(()));
    assert_eq!(
        Naga::report("src", Analysis::Invalid("bad".to_string())),
        Err(ShaderErrorList {
            errors: vec![ShaderError::ValidationErr {
                src: "src".to_string(),
                emitted: "bad".to_string(),
            }],
        })
    );
    assert_eq!(
        Naga::report(
            "src",
            Analysis::Refused(ParseFailure { message: "m".to_string(), location: None })
        ),
        Err(ShaderErrorList {
            errors: vec![ShaderError::ParserErr {
                severity: ShaderErrorSeverity::Error,
                error: "m".to_string(),
                line: 0,
                pos: 0,
            }],
        })
    );
}

#[test]
fn backends_have_their_settings() {
    assert_eq!(
        Glsl::settings(),
        CompileSettings {
            language: SourceKind::Glsl,
            stage: Stage::Fragment,
            target: CompileTarget::Vulkan1_3,
            cascading_errors: true,
            debug_info: true,
        }
    );
    assert_eq!(
        Hlsl::settings(),
        CompileSettings {
            language: SourceKind::Hlsl,
            stage: Stage::Fragment,
            target: CompileTarget::Spirv1_6,
            cascading_errors: true,
            debug_info: true,
        }
    );
}

#[test]
fn source_with_nul_is_not_compiled() {
    assert!(holds_nul("a\0b"));
    assert!(holds_nul("\0"));
    assert!(holds_nul("\u{fc}\0"));
    assert!(!holds_nul(""));
    assert!(!holds_nul("void main() {}"));
    assert!(!holds_nul("\u{fc}\u{20ac}\u{10348}"));
    assert_eq!(
        prepare("void main() {}\0", Glsl::settings()),
        Validation::Done(Err(internal("Failed to read from source")))
    );
    assert_eq!(prepare("void main() {}", Glsl::settings()), Validation::Compile(Glsl::settings()));
    assert_eq!(prepare("", Hlsl::settings()), Validation::Compile(Hlsl::settings()));
}

#[test]
fn compiler_failures_become_diagnostics() {
    assert_eq!(
        GlslangFailure::CompilerLog("ERROR: 0:4: 'x' : undeclared identifier\n".to_string())
            .into_errors(),
        ShaderErrorList {
            errors: vec![ShaderError::ParserErr {
                severity: ShaderErrorSeverity::Error,
                error: " 'x' : undeclared identifier".to_string(),
                line: 4,
                pos: 0,
            }],
        }
    );
    assert_eq!(
        GlslangFailure::ShaderStageNotFound("Fragment".to_string()).into_errors(),
        ShaderErrorList {
            errors: vec![ShaderError::ValidationErr {
                src: "".to_string(),
                emitted: "Shader stage not found: Fragment".to_string(),
            }],
        }
    );
    assert_eq!(
        GlslangFailure::InvalidProfile {
            target: "Vulkan".to_string(),
            version: 120,
            profile: "Core".to_string(),
        }
        .into_errors(),
        internal("Invalid profile 120 for target Vulkan: Core")
    );
    assert_eq!(
        GlslangFailure::VersionUnsupported { version: -5, profile: "ES".to_string() }.into_errors(),
        internal("Unsupported profile -5: ES")
    );
    assert_eq!(GlslangFailure::Other("NoLanguageTarget".to_string()).into_errors(), internal("NoLanguageTarget"));
}

#[test]
fn failure_without_a_word_is_still_reported() {
    let silent = internal("Compilation failed without diagnostics");
    assert_eq!(GlslangFailure::CompilerLog("".to_string()).into_errors(), silent);
    assert_eq!(HassleFailure::CompileError("".to_string()).into_errors(), silent);
    assert_eq!(after_compile(Err("".to_string()), false), AfterCompile::Done(Err(silent.clone())));
    assert_eq!(ErrorFormat::Glslang.report_failure(""), silent);
    assert_eq!(ErrorFormat::Dxc.report_failure(""), silent);
    assert_eq!(ErrorFormat::Dxc.report_failure("no header here"), internal("Failed to parse regex: no header here"));
    assert_eq!(
        ErrorFormat::Glslang.report_failure("WARNING: 0:2: w\n"),
        ShaderErrorList {
            errors: vec![ShaderError::ParserErr {
                severity: ShaderErrorSeverity::Warning,
                error: " w".to_string(),
                line: 2,
                pos: 0,
            }],
        }
    );
}

#[test]
fn runs_of_the_compiler_are_reported() {
    assert_eq!(report_run(Some(Ok(()))), Ok(()));
    assert_eq!(report_run(None), Err(internal("Failed to acquire the compiler")));
    assert_eq!(
        report_run(Some(Err(GlslangFailure::Other("odd".to_string())))),
        Err(internal("odd"))
    );
}

#[test]
fn toolchain_failures_become_diagnostics() {
    assert_eq!(
        HassleFailure::CompileError("a.hlsl:2:3: error: bad\n".to_string()).into_errors(),
        ShaderErrorList {
            errors: vec![ShaderError::ParserErr {
                severity: ShaderErrorSeverity::Error,
                error: " bad\n".to_string(),
                line: 2,
                pos: 3,
            }],
        }
    );
    assert_eq!(HassleFailure::LibLoadingError("no symbol".to_string()).into_errors(), internal("no symbol"));
    assert_eq!(
        HassleFailure::LoadLibraryError {
            filename: "libdxcompiler.so".to_string(),
            inner: "not found".to_string(),
        }
        .into_errors(),
        internal("Failed to load library libdxcompiler.so: not found")
    );
    assert_eq!(
        HassleFailure::Win32Error("0x80004005".to_string()).into_errors(),
        internal("Win32 error: HRESULT=0x80004005")
    );
    assert_eq!(
        HassleFailure::WindowsOnly("signing".to_string()).into_errors(),
        internal("Windows only error: signing")
    );
    assert_eq!(HassleFailure::Other("Validation error: x".to_string()).into_errors(), internal("Validation error: x"));
}

#[test]
fn steps_after_a_compilation() {
    assert_eq!(after_compile(Ok(()), true), AfterCompile::Validate);
    assert_eq!(after_compile(Ok(()), false), AfterCompile::Done(Ok(())));
    let failed = after_compile(Err("a.hlsl:1:1: warning: w\n".to_string()), true);
    assert_eq!(
        failed,
        AfterCompile::Done(Err(ShaderErrorList {
            errors: vec![ShaderError::ParserErr {
                severity: ShaderErrorSeverity::Warning,
                error: " w\n".to_string(),
                line: 1,
                pos: 1,
            }],
        }))
    );
    assert_eq!(after_validation(Ok(())), Ok(()));
    assert_eq!(
        after_validation(Err("unsigned".to_string())),
        Err(internal("Validation failed: unsigned"))
    );
}

#[test]
fn compiler_names_and_trees() {
    assert_eq!(source_name(Some("light.hlsl")), "light.hlsl");
    assert_eq!(source_name(None), "shader.hlsl");
    assert_eq!(target_profile(), "lib_6_5");
    assert_eq!(tree_after_compile(true), Ok(ShaderTree::default()));
    assert_eq!(
        tree_after_compile(false),
        Err(internal("Failed to get reflection data from shader"))
    );
}

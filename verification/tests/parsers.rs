use shader_language_server::dxc::parse_dxc_errors;
use shader_language_server::error_text::{cut_blocks, pattern_failure, unparsed, ErrorFormat};
use shader_language_server::glsl::Glsl;
use shader_language_server::pattern::PatternError;
use shader_language_server::shader_error::{ShaderError, ShaderErrorList, ShaderErrorSeverity};

fn located(severity: ShaderErrorSeverity, error: &str, line: usize, pos: usize) -> ShaderError {
    ShaderError::ParserErr { severity, error: error.to_string(), line, pos }
}

#[test]
fn glsl_log_yields_one_diagnostic_per_header() {
    let log = "ERROR: 0:10: '=' :  cannot convert from ' const 3-component vector of float' to ' temp int'\nWARNING: 0:12: 'x' : unused\nERROR: 2 compilation errors.  No code generated.\n\n";
    let list = Glsl::parse_errors(log).unwrap();
    assert_eq!(
        list.errors,
        vec![
            located(
                ShaderErrorSeverity::Error,
                " '=' :  cannot convert from ' const 3-component vector of float' to ' temp int'",
                10,
                0
            ),
            located(ShaderErrorSeverity::Warning, " 'x' : unused", 12, 0),
        ]
    );
}

#[test]
fn glsl_column_is_zero_whatever_the_log_says() {
    let log = "ERROR: 7:33: message\nNOTE: 9:4: more\nHINT: 1:1: last\n";
    let list = Glsl::parse_errors(log).unwrap();
    assert_eq!(list.errors.len(), 3);
    for error in &list.errors {
        match error {
            ShaderError::ParserErr { pos, .. } => assert_eq!(*pos, 0),
            other => panic!("unexpected diagnostic {:?}", other),
        }
    }
    assert_eq!(list.errors[0], located(ShaderErrorSeverity::Error, " message", 33, 0));
    assert_eq!(list.errors[1], located(ShaderErrorSeverity::Information, " more", 4, 0));
    assert_eq!(list.errors[2], located(ShaderErrorSeverity::Hint, " last", 1, 0));
}

#[test]
fn glsl_unknown_tag_counts_as_error() {
    let list = Glsl::parse_errors("FATAL: 0:3: broken\n").unwrap();
    assert_eq!(list.errors, vec![located(ShaderErrorSeverity::Error, " broken", 3, 0)]);
    let lower = Glsl::parse_errors("warning: 0:3: lower case\n").unwrap();
    assert_eq!(lower.errors, vec![located(ShaderErrorSeverity::Error, " lower case", 3, 0)]);
}

#[test]
fn glsl_text_without_header_is_kept_whole() {
    let list = Glsl::parse_errors("the compiler crashed").unwrap();
    assert_eq!(
        list.errors,
        vec![ShaderError::InternalErr("Failed to parse regex: the compiler crashed".to_string())]
    );
}

#[test]
fn empty_text_holds_no_diagnostic() {
    assert_eq!(Glsl::parse_errors("").unwrap(), ShaderErrorList { errors: vec![] });
    assert_eq!(parse_dxc_errors("").unwrap(), ShaderErrorList { errors: vec![] });
}

#[test]
fn glsl_header_without_message_is_kept_as_internal_error() {
    let list = Glsl::parse_errors("ERROR: 0:10:\nERROR: 0:11: real\n").unwrap();
    assert_eq!(
        list.errors,
        vec![
            ShaderError::InternalErr("Failed to parse regex: ERROR: 0:10:\n".to_string()),
            located(ShaderErrorSeverity::Error, " real", 11, 0),
        ]
    );
}

#[test]
fn glsl_line_too_large_is_unknown() {
    let list = Glsl::parse_errors("ERROR: 0:99999999999999999999999999: far\n").unwrap();
    assert_eq!(list.errors, vec![located(ShaderErrorSeverity::Error, " far", 0, 0)]);
}

#[test]
fn glsl_text_before_a_header_with_wide_characters_is_cut_at_bytes() {
    let log = "// \u{fc}\u{e9}\nERROR: 0:3: '\u{fc}' : undeclared identifier\n";
    let list = Glsl::parse_errors(log).unwrap();
    assert_eq!(
        list.errors,
        vec![located(ShaderErrorSeverity::Error, " '\u{fc}' : undeclared identifier", 3, 0)]
    );
}

#[test]
fn dxc_text_yields_located_diagnostics_with_multi_line_messages() {
    let text = "shader.hlsl:5:12: error: use of undeclared identifier 'foo'\n    return foo;\n           ^\nshader.hlsl:9:1: warning: unused variable 'a'\n";
    let list = parse_dxc_errors(text).unwrap();
    assert_eq!(
        list.errors,
        vec![
            located(
                ShaderErrorSeverity::Error,
                " use of undeclared identifier 'foo'\n    return foo;\n           ^\n",
                5,
                12
            ),
            located(ShaderErrorSeverity::Warning, " unused variable 'a'\n", 9, 1),
        ]
    );
}

#[test]
fn dxc_tags_are_lower_case() {
    let list =
        parse_dxc_errors("a.hlsl:1:2: note: n\na.hlsl:3:4: hint: h\na.hlsl:5:6: ERROR: e\n")
            .unwrap();
    assert_eq!(
        list.errors,
        vec![
            located(ShaderErrorSeverity::Information, " n\n", 1, 2),
            located(ShaderErrorSeverity::Hint, " h\n", 3, 4),
            located(ShaderErrorSeverity::Error, " e\n", 5, 6),
        ]
    );
}

#[test]
fn dxc_text_without_header_is_kept_whole() {
    let list = parse_dxc_errors("error: out of memory").unwrap();
    assert_eq!(
        list.errors,
        vec![ShaderError::InternalErr("Failed to parse regex: error: out of memory".to_string())]
    );
}

#[test]
fn diagnostic_of_reads_groups_by_format() {
    let groups = |items: &[&str]| -> Option<Vec<Option<String>>> {
        Some(items.iter().map(|s| Some(s.to_string())).collect())
    };
    assert_eq!(
        ErrorFormat::Glslang.diagnostic_of("b", groups(&["whole", "WARNING", "0", "42", "msg"])),
        located(ShaderErrorSeverity::Warning, "msg", 42, 0)
    );
    assert_eq!(
        ErrorFormat::Dxc.diagnostic_of("b", groups(&["whole", "f.hlsl", "7", "9", "note", "msg"])),
        located(ShaderErrorSeverity::Information, "msg", 7, 9)
    );
    assert_eq!(
        ErrorFormat::Dxc.diagnostic_of("b", groups(&["whole", "f.hlsl", "x", "+8", "hint"])),
        located(ShaderErrorSeverity::Hint, "", 0, 8)
    );
    assert_eq!(
        ErrorFormat::Dxc.diagnostic_of("b", Some(vec![None, None, None, None, None, None])),
        located(ShaderErrorSeverity::Error, "", 0, 0)
    );
    assert_eq!(
        ErrorFormat::Glslang.diagnostic_of("raw block", None),
        ShaderError::InternalErr("Failed to parse regex: raw block".to_string())
    );
}

#[test]
fn severity_tags_of_both_formats() {
    assert_eq!(ErrorFormat::Glslang.severity("ERROR"), ShaderErrorSeverity::Error);
    assert_eq!(ErrorFormat::Glslang.severity("WARNING"), ShaderErrorSeverity::Warning);
    assert_eq!(ErrorFormat::Glslang.severity("NOTE"), ShaderErrorSeverity::Information);
    assert_eq!(ErrorFormat::Glslang.severity("HINT"), ShaderErrorSeverity::Hint);
    assert_eq!(ErrorFormat::Glslang.severity("hint"), ShaderErrorSeverity::Error);
    assert_eq!(ErrorFormat::Dxc.severity("error"), ShaderErrorSeverity::Error);
    assert_eq!(ErrorFormat::Dxc.severity("warning"), ShaderErrorSeverity::Warning);
    assert_eq!(ErrorFormat::Dxc.severity("note"), ShaderErrorSeverity::Information);
    assert_eq!(ErrorFormat::Dxc.severity("hint"), ShaderErrorSeverity::Hint);
    assert_eq!(ErrorFormat::Dxc.severity("WARNING"), ShaderErrorSeverity::Error);
    assert_eq!(ErrorFormat::Dxc.severity(""), ShaderErrorSeverity::Error);
}

#[test]
fn unparsed_keeps_the_text() {
    assert_eq!(
        unparsed("x\ny"),
        ShaderError::InternalErr("Failed to parse regex: x\ny".to_string())
    );
}

#[test]
fn refused_patterns_are_reported() {
    assert_eq!(
        pattern_failure(PatternError::CompiledTooBig(10485760)).errors,
        vec![ShaderError::InternalErr("Regex compile too big: 10485760".to_string())]
    );
    assert_eq!(
        pattern_failure(PatternError::Syntax("unclosed group".to_string())).errors,
        vec![ShaderError::InternalErr("Regex syntax invalid: unclosed group".to_string())]
    );
    assert_eq!(
        pattern_failure(PatternError::Other("odd".to_string())).errors,
        vec![ShaderError::InternalErr("Regex error: odd".to_string())]
    );
}

#[test]
fn pieces_run_from_header_to_header() {
    let text = "head\nERROR: 0:1: a\nmore\nERROR: 0:2: b\n";
    assert_eq!(cut_blocks(text, &vec![5, 24]), vec!["ERROR: 0:1: a\nmore\n", "ERROR: 0:2: b\n"]);
    assert_eq!(cut_blocks("abcdef", &vec![0, 2, 2, 5]), vec!["ab", "", "cde", "f"]);
    assert_eq!(cut_blocks("abcdef", &vec![6]), vec![""]);
    assert_eq!(cut_blocks("abcdef", &vec![]), Vec::<&str>::new());
    assert_eq!(cut_blocks("", &vec![0]), vec![""]);
}

#[test]
fn pieces_joined_give_the_text_from_the_first_header_on() {
    let text = "x\u{fc}\nA: 1:2: \u{20ac}\nB: 3:4: z\ntail";
    let starts = vec![4, 16];
    assert_eq!(cut_blocks(text, &starts).concat(), &text[4..]);
}

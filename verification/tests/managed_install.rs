use codewen::managed_install::parse_codewen_version;
use codewen::managed_install::VersionParseError;
use codewen::text::trim;

#[test]
fn parses_codewen_cli_version_output() {
    assert_eq!(
        parse_codewen_version("codewen 1.2.3\n").expect("version"),
        "1.2.3"
    );
}

#[test]
fn rejects_malformed_codewen_cli_version_output() {
    assert!(parse_codewen_version("codewen\n").is_err());
}

#[test]
fn version_parse_errors_name_the_missing_part() {
    assert_eq!(
        parse_codewen_version("codewen\n"),
        Err(VersionParseError::MissingProgramName)
    );
    assert_eq!(
        parse_codewen_version("other 1.2.3\n"),
        Err(VersionParseError::MissingProgramName)
    );
    assert_eq!(
        parse_codewen_version("codewen   \n"),
        Err(VersionParseError::MissingProgramName)
    );
    assert_eq!(
        parse_codewen_version("  codewen \t 0.9.0-beta.1 \r\n"),
        Ok("0.9.0-beta.1".to_string())
    );
}

#[test]
fn printed_version_reads_back() {
    for v in ["1.2.3", "0.0.1-alpha", "2024.10"] {
        let printed = format!("codewen {v}\n");
        assert_eq!(parse_codewen_version(&printed), Ok(v.to_string()));
    }
}

#[test]
fn trim_removes_unicode_white_space_at_both_ends() {
    assert_eq!(trim("  a b \n"), "a b");
    assert_eq!(trim("\u{3000}\u{a0}x\u{2029}"), "x");
    assert_eq!(trim(" \t\r\n"), "");
    assert_eq!(trim(""), "");
    for s in ["  a b \n", "\u{85}q\u{85}", "x", " \u{200b}y "] {
        assert_eq!(trim(s), s.trim());
    }
}

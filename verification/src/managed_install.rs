//! Reading the version that `codewen --version` prints.

use vstd::prelude::*;
use crate::text::{has_prefix, is_white_space, spec_trim, str_starts_with, trim};

verus! {

/// Why the version output was not understood.
#[derive(PartialEq, Eq, Structural, Clone, Copy, Debug)]
pub enum VersionParseError {
    /// The output does not start with `codewen `.
    MissingProgramName,
    /// Nothing follows the program name.
    MissingVersion,
}

/// The program name and the space after it.
pub open spec fn program_prefix() -> Seq<char> {
    "codewen "@
}

/// The version in the output of `codewen --version`: the output, trimmed,
/// must start with `codewen `; what follows, trimmed, is the version and
/// must not be empty.
pub open spec fn spec_parse_codewen_version(output: Seq<char>) -> Result<Seq<char>, VersionParseError> {
    let line = spec_trim(output);
    if !has_prefix(line, program_prefix()) {
        Err(VersionParseError::MissingProgramName)
    } else {
        let version = spec_trim(line.skip(program_prefix().len() as int));
        if version.len() == 0 {
            Err(VersionParseError::MissingVersion)
        } else {
            Ok(version)
        }
    }
}

/// Parses the output of `codewen --version` into the version string.
pub fn parse_codewen_version(output: &str) -> (res: Result<String, VersionParseError>)
    ensures
        match spec_parse_codewen_version(output@) {
            Ok(v) => res matches Ok(s) && s@ == v,
            Err(e) => res == Err::<String, VersionParseError>(e),
        },
{
    proof {
        reveal_strlit("codewen ");
    }
    let line = trim(output);
    if !str_starts_with(line, "codewen ") {
        return Err(VersionParseError::MissingProgramName);
    }
    let len = line.unicode_len();
    let rest = line.substring_char(8, len);
    assert(rest@ =~= line@.skip(8));
    let version = trim(rest);
    if version.unicode_len() == 0 {
        return Err(VersionParseError::MissingVersion);
    }
    Ok(String::from_str(version))
}

proof fn lemma_trim_of_unpadded(s: Seq<char>)
    requires
        s.len() > 0,
        !is_white_space(s[0]),
        !is_white_space(s.last()),
    ensures
        spec_trim(s) == s,
{
}

/// A version without white space, printed as `codewen <version>` and a
/// newline, is read back as that version.
pub proof fn lemma_parse_printed_version(version: Seq<char>)
    requires
        version.len() > 0,
        forall|i: int| 0 <= i < version.len() ==> !is_white_space(#[trigger] version[i]),
    ensures
        spec_parse_codewen_version(program_prefix() + version + seq!['\n']) == Ok::<
            Seq<char>,
            VersionParseError,
        >(version),
{
    reveal_strlit("codewen ");
    let line = program_prefix() + version;
    let output = line + seq!['\n'];
    assert(output[0] == 'c');
    assert(output.drop_last() =~= line);
    assert(line[0] == 'c');
    assert(line.last() == version.last());
    assert(!is_white_space(version[version.len() - 1]));
    lemma_trim_of_unpadded(line);
    assert(spec_trim(output) == line);
    assert(line.subrange(0, 8) =~= program_prefix());
    assert(line.skip(8) =~= version);
    assert(!is_white_space(version[0]));
    lemma_trim_of_unpadded(version);
}

} // verus!

//! Decisions of the Windows desktop-app launcher: how a workspace path is
//! shown to the user, the `codewen://` URL that opens a new thread on it,
//! whether the app-probe output shows the app as installed, and the
//! open-or-install sequence itself as a state machine.

use vstd::prelude::*;
use vstd::utf8::encode_utf8;
use crate::text::{char_is_white_space, has_prefix, is_white_space, str_starts_with};
use crate::urlencoded::{form_urlencoded_pair, form_urlencoded_parse, lemma_form_urlencoded_pair_parses, serialize_urlencoded_pair};

verus! {

/// Verbatim UNC prefix `\\?\UNC\`.
pub open spec fn verbatim_unc_prefix() -> Seq<char> {
    seq!['\\', '\\', '?', '\\', 'U', 'N', 'C', '\\']
}

/// Verbatim prefix `\\?\`.
pub open spec fn verbatim_prefix() -> Seq<char> {
    seq!['\\', '\\', '?', '\\']
}

/// How a workspace path is shown: a verbatim UNC path `\\?\UNC\rest`
/// becomes `\\rest`, any other verbatim path `\\?\rest` becomes `rest`,
/// and every other path is shown as it is.
pub open spec fn spec_display_workspace_path(path: Seq<char>) -> Seq<char> {
    if has_prefix(path, verbatim_unc_prefix()) {
        seq!['\\', '\\'] + path.skip(8)
    } else if has_prefix(path, verbatim_prefix()) {
        path.skip(4)
    } else {
        path
    }
}

/// The workspace path as shown to the user, without the Windows verbatim
/// (`\\?\`) prefix; a verbatim UNC path keeps its `\\server` form.
pub fn display_workspace_path(workspace: &str) -> (res: String)
    ensures
        res@ == spec_display_workspace_path(workspace@),
{
    proof {
        reveal_strlit("\\\\?\\UNC\\");
        reveal_strlit("\\\\?\\");
        reveal_strlit("\\\\");
    }
    assert("\\\\?\\UNC\\"@ =~= verbatim_unc_prefix());
    assert("\\\\?\\"@ =~= verbatim_prefix());
    let len = workspace.unicode_len();
    if str_starts_with(workspace, "\\\\?\\UNC\\") {
        let rest = workspace.substring_char(8, len);
        let mut shown = String::from_str("\\\\");
        shown.append(rest);
        assert(workspace@.skip(8) =~= workspace@.subrange(8, len as int));
        assert(shown@ =~= seq!['\\', '\\'] + workspace@.skip(8));
        shown
    } else if str_starts_with(workspace, "\\\\?\\") {
        let rest = workspace.substring_char(4, len);
        assert(workspace@.skip(4) =~= workspace@.subrange(4, len as int));
        String::from_str(rest)
    } else {
        String::from_str(workspace)
    }
}

/// How a workspace path is shown, over every path:
/// - a path starting with `\\?\UNC\` is shown as `\\` followed by what
///   comes after those eight characters;
/// - any other path starting with `\\?\` is shown with its first four
///   characters removed, whatever follows the prefix;
/// - every other path is shown unchanged.
pub proof fn lemma_display_workspace_path(path: Seq<char>)
    ensures
        ({
            let shown = spec_display_workspace_path(path);
            let verbatim = path.len() >= 4 && path[0] == '\\' && path[1] == '\\' && path[2] == '?'
                && path[3] == '\\';
            let unc = verbatim && path.len() >= 8 && path[4] == 'U' && path[5] == 'N' && path[6]
                == 'C' && path[7] == '\\';
            &&& unc ==> shown.len() == path.len() - 6 && shown[0] == '\\' && shown[1] == '\\'
                && forall|i: int| 2 <= i < shown.len() ==> shown[i] == path[i + 6]
            &&& verbatim && !unc ==> shown.len() == path.len() - 4 && forall|i: int|
                0 <= i < shown.len() ==> shown[i] == path[i + 4]
            &&& !verbatim ==> shown == path
        }),
{
    let verbatim = path.len() >= 4 && path[0] == '\\' && path[1] == '\\' && path[2] == '?'
        && path[3] == '\\';
    let unc = verbatim && path.len() >= 8 && path[4] == 'U' && path[5] == 'N' && path[6] == 'C'
        && path[7] == '\\';
    if verbatim {
        assert(path.subrange(0, 4) =~= verbatim_prefix());
    } else if path.len() >= 4 {
        assert(path.subrange(0, 4)[0] == path[0]);
        assert(path.subrange(0, 4)[1] == path[1]);
        assert(path.subrange(0, 4)[2] == path[2]);
        assert(path.subrange(0, 4)[3] == path[3]);
        assert(path.subrange(0, 4) != verbatim_prefix());
    }
    if unc {
        assert(path.subrange(0, 8) =~= verbatim_unc_prefix());
    } else if path.len() >= 8 {
        if has_prefix(path, verbatim_unc_prefix()) {
            assert(path.subrange(0, 8)[0] == path[0]);
            assert(path.subrange(0, 8)[1] == path[1]);
            assert(path.subrange(0, 8)[2] == path[2]);
            assert(path.subrange(0, 8)[3] == path[3]);
            assert(path.subrange(0, 8)[4] == path[4]);
            assert(path.subrange(0, 8)[5] == path[5]);
            assert(path.subrange(0, 8)[6] == path[6]);
            assert(path.subrange(0, 8)[7] == path[7]);
        }
    }
    if !verbatim && has_prefix(path, verbatim_unc_prefix()) {
        assert(path.subrange(0, 8)[0] == path[0]);
        assert(path.subrange(0, 8)[1] == path[1]);
        assert(path.subrange(0, 8)[2] == path[2]);
        assert(path.subrange(0, 8)[3] == path[3]);
    }
}

/// Scheme, host and path of the URL that opens a new thread.
pub open spec fn new_thread_url_base() -> Seq<char> {
    "codewen://threads/new?"@
}

/// The URL that opens a new thread on `workspace`: the workspace path,
/// exactly as given, is the form-urlencoded value of the `path` query pair.
pub open spec fn spec_codewen_new_thread_url(workspace: Seq<char>) -> Seq<char> {
    new_thread_url_base() + form_urlencoded_pair("path"@, workspace)
}

/// The `codewen://threads/new` URL for a workspace path.
pub fn codewen_new_thread_url(workspace: &str) -> (res: String)
    ensures
        res@ == spec_codewen_new_thread_url(workspace@),
{
    let query = serialize_urlencoded_pair("path", workspace);
    let mut url = String::from_str("codewen://threads/new?");
    url.append(query.as_str());
    url
}

/// The query of a new-thread URL is ASCII, and the form-urlencoded parser
/// reads its bytes as exactly one pair: the name `path` and the UTF-8 bytes
/// of the workspace path, verbatim prefix included; decoding those bytes
/// as UTF-8 (lossily or not) gives back the workspace path. So two
/// different workspace paths never share a URL.
pub proof fn lemma_new_thread_url_carries_workspace(workspace: Seq<char>, other: Seq<char>)
    ensures
        ({
            let url = spec_codewen_new_thread_url(workspace);
            let query = url.skip(new_thread_url_base().len() as int);
            &&& url.subrange(0, new_thread_url_base().len() as int) == new_thread_url_base()
            &&& vstd::utf8::is_ascii_chars(query)
            &&& form_urlencoded_parse(encode_utf8(query)) == seq![
                (encode_utf8("path"@), encode_utf8(workspace)),
            ]
            &&& vstd::utf8::valid_utf8(encode_utf8(workspace))
            &&& vstd::utf8::decode_utf8(encode_utf8(workspace)) == workspace
        }),
        workspace != other ==> spec_codewen_new_thread_url(workspace) != spec_codewen_new_thread_url(
            other,
        ),
{
    let base = new_thread_url_base();
    let url = spec_codewen_new_thread_url(workspace);
    let url2 = spec_codewen_new_thread_url(other);
    assert(url.subrange(0, base.len() as int) =~= base);
    assert(url.skip(base.len() as int) =~= form_urlencoded_pair("path"@, workspace));
    assert(url2.skip(base.len() as int) =~= form_urlencoded_pair("path"@, other));
    lemma_form_urlencoded_pair_parses("path"@, workspace);
    lemma_form_urlencoded_pair_parses("path"@, other);
    vstd::utf8::encode_utf8_valid_utf8(workspace);
    vstd::utf8::encode_utf8_decode_utf8(workspace);
    vstd::utf8::encode_utf8_decode_utf8(other);
    if url == url2 {
        assert(form_urlencoded_parse(encode_utf8(url.skip(base.len() as int)))[0].1
            == encode_utf8(workspace));
    }
}

/// The text holds something other than white space, so it is not empty
/// once trimmed.
pub open spec fn has_visible_text(s: Seq<char>) -> bool {
    exists|i: int| 0 <= i < s.len() && !is_white_space(#[trigger] s[i])
}

/// Reads the result of the start-menu probe for the desktop app: the app is
/// installed when the probe ran successfully and printed an app id, that is,
/// its output is not blank.
pub fn codewen_app_found(probe_succeeded: bool, stdout: &str) -> (res: bool)
    ensures
        res == (probe_succeeded && has_visible_text(stdout@)),
{
    if !probe_succeeded {
        return false;
    }
    let n = stdout.unicode_len();
    let mut i: usize = 0;
    while i < n
        invariant
            probe_succeeded,
            n == stdout@.len(),
            i <= n,
            forall|j: int| 0 <= j < i ==> is_white_space(#[trigger] stdout@[j]),
        decreases n - i,
    {
        let c = stdout.get_char(i);
        if !char_is_white_space(c) {
            assert(!is_white_space(stdout@[i as int]));
            assert(has_visible_text(stdout@));
            return true;
        }
        i = i + 1;
    }
    false
}

} // verus!

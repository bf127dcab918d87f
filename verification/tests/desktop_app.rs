use codewen::desktop_app::codewen_app_found;
use codewen::desktop_app::codewen_new_thread_url;
use codewen::desktop_app::display_workspace_path;

#[test]
fn display_workspace_path_removes_windows_extended_prefix() {
    assert_eq!(
        display_workspace_path(r"\\?\C:\Users\fcoury\code\codewen"),
        r"C:\Users\fcoury\code\codewen"
    );
}

#[test]
fn display_workspace_path_preserves_unc_prefix() {
    assert_eq!(
        display_workspace_path(r"\\?\UNC\server\share\codewen"),
        r"\\server\share\codewen"
    );
}

#[test]
fn display_workspace_path_leaves_regular_paths_unchanged() {
    assert_eq!(
        display_workspace_path(r"C:\Users\fcoury\code\codewen"),
        r"C:\Users\fcoury\code\codewen"
    );
}

#[test]
fn display_workspace_path_edge_cases() {
    assert_eq!(display_workspace_path(r"\\?\"), "");
    assert_eq!(display_workspace_path(r"\\?\UNC\"), r"\\");
    assert_eq!(display_workspace_path(r"\\server\share"), r"\\server\share");
    assert_eq!(display_workspace_path("/home/user/project"), "/home/user/project");
    assert_eq!(display_workspace_path(""), "");
}

#[test]
fn codewen_new_thread_url_encodes_windows_workspace_path() {
    assert_eq!(
        codewen_new_thread_url(r"C:\Users\akuma\repos\koba"),
        r"codewen://threads/new?path=C%3A%5CUsers%5Cakuma%5Crepos%5Ckoba"
    );
}

#[test]
fn codewen_new_thread_url_preserves_verbatim_workspace_path() {
    assert_eq!(
        codewen_new_thread_url(r"\\?\C:\Users\akuma\repos\koba"),
        r"codewen://threads/new?path=%5C%5C%3F%5CC%3A%5CUsers%5Cakuma%5Crepos%5Ckoba"
    );
}

#[test]
fn codewen_new_thread_url_encodes_spaces_unreserved_and_utf8() {
    assert_eq!(
        codewen_new_thread_url("/home/a b/x-y_z.*~"),
        "codewen://threads/new?path=%2Fhome%2Fa+b%2Fx-y_z.*%7E"
    );
    assert_eq!(
        codewen_new_thread_url("/tmp/é&="),
        "codewen://threads/new?path=%2Ftmp%2F%C3%A9%26%3D"
    );
    assert_eq!(codewen_new_thread_url(""), "codewen://threads/new?path=");
}

#[test]
fn different_workspaces_get_different_urls() {
    let a = codewen_new_thread_url("a b");
    let b = codewen_new_thread_url("a+b");
    assert_ne!(a, b);
    assert_eq!(a, "codewen://threads/new?path=a+b");
    assert_eq!(b, "codewen://threads/new?path=a%2Bb");
}

#[test]
fn app_found_only_when_probe_succeeded_with_output() {
    assert!(codewen_app_found(true, "OpenAI.Codex_abc!App\r\n"));
    assert!(!codewen_app_found(true, "  \r\n\t"));
    assert!(!codewen_app_found(true, ""));
    assert!(!codewen_app_found(false, "OpenAI.Codex_abc!App"));
    assert!(!codewen_app_found(true, "\u{a0}\u{3000}"));
    assert!(codewen_app_found(true, "\u{fffd}"));
}

#[test]
fn app_found_agrees_with_trimmed_output() {
    for out in ["", " ", "x", "\u{2028}\n", " a ", "\u{feff}", "\u{200b}"] {
        assert_eq!(codewen_app_found(true, out), !out.trim().is_empty());
    }
}

fn parsed_query(url: &str) -> Vec<(String, String)> {
    let query = url.strip_prefix("codewen://threads/new?").expect("url prefix");
    url::form_urlencoded::parse(query.as_bytes())
        .map(|(k, v)| (k.into_owned(), v.into_owned()))
        .collect()
}

#[test]
fn new_thread_url_query_parses_back_to_the_workspace() {
    for workspace in [
        r"C:\Users\akuma\repos\koba",
        r"\\?\C:\Users\akuma\repos\koba",
        "/tmp/a b&c=d+e%f",
        "/home/é/日本",
        "",
        "&&==",
    ] {
        let url = codewen_new_thread_url(workspace);
        assert!(url.is_ascii());
        assert_eq!(
            parsed_query(&url),
            vec![("path".to_string(), workspace.to_string())]
        );
    }
}

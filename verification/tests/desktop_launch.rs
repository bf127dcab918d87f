use codewen::desktop_launch::LaunchAction;
use codewen::desktop_launch::LaunchEvent;
use codewen::desktop_launch::LaunchPhase;
use codewen::desktop_launch::WindowsAppLaunch;
use codewen::desktop_launch::CODEX_MICROSOFT_STORE_WEB_URL;
use codewen::desktop_launch::CODEX_WINDOWS_INSTALLER_URL;

fn describe(actions: Vec<LaunchAction>) -> Vec<String> {
    actions
        .into_iter()
        .map(|a| match a {
            LaunchAction::CheckInstalled => "check".to_string(),
            LaunchAction::Notify(s) => format!("notify:{s}"),
            LaunchAction::OpenUrl(s) => format!("open:{s}"),
            LaunchAction::Succeed => "ok".to_string(),
            LaunchAction::Fail => "fail".to_string(),
        })
        .collect()
}

#[test]
fn installed_app_opens_the_workspace() {
    let mut launch = WindowsAppLaunch::new(r"\\?\C:\work", None);
    assert_eq!(describe(launch.handle(LaunchEvent::Begin)), vec!["check"]);
    assert_eq!(
        describe(launch.handle(LaunchEvent::InstallCheckDone(true))),
        vec![
            r"notify:Opening workspace C:\work in the Desktop app...".to_string(),
            "open:codewen://threads/new?path=%5C%5C%3F%5CC%3A%5Cwork".to_string(),
        ]
    );
    assert_eq!(launch.phase(), LaunchPhase::OpeningWorkspace);
    assert_eq!(describe(launch.handle(LaunchEvent::UrlOpened)), vec!["ok"]);
    assert_eq!(launch.phase(), LaunchPhase::Done);
    assert!(launch.handle(LaunchEvent::UrlOpened).is_empty());
}

#[test]
fn missing_app_opens_default_installer_then_store_on_failure() {
    let mut launch = WindowsAppLaunch::new(r"C:\work", None);
    launch.handle(LaunchEvent::Begin);
    assert_eq!(
        describe(launch.handle(LaunchEvent::InstallCheckDone(false))),
        vec![
            "notify:Desktop app not found; opening Windows installer...".to_string(),
            format!("open:{CODEX_WINDOWS_INSTALLER_URL}"),
        ]
    );
    assert_eq!(
        describe(launch.handle(LaunchEvent::UrlOpenFailed)),
        vec![format!("open:{CODEX_MICROSOFT_STORE_WEB_URL}")]
    );
    assert_eq!(
        describe(launch.handle(LaunchEvent::UrlOpened)),
        vec![
            r"notify:After installing the Desktop app, open workspace C:\work.".to_string(),
            "ok".to_string(),
        ]
    );
}

#[test]
fn failed_override_is_not_followed_by_store_page() {
    let mut launch = WindowsAppLaunch::new("/w", Some("https://example.test/x".to_string()));
    launch.handle(LaunchEvent::Begin);
    assert_eq!(
        describe(launch.handle(LaunchEvent::InstallCheckDone(false)))[1],
        "open:https://example.test/x"
    );
    assert_eq!(
        describe(launch.handle(LaunchEvent::UrlOpenFailed)),
        vec![
            "notify:After installing the Desktop app, open workspace /w.".to_string(),
            "ok".to_string(),
        ]
    );
    assert_eq!(launch.phase(), LaunchPhase::Done);
}

#[test]
fn failures_end_the_launch_with_an_error() {
    let mut launch = WindowsAppLaunch::new("/w", None);
    launch.handle(LaunchEvent::Begin);
    assert_eq!(describe(launch.handle(LaunchEvent::InstallCheckFailed)), vec!["fail"]);

    let mut launch = WindowsAppLaunch::new("/w", None);
    launch.handle(LaunchEvent::Begin);
    launch.handle(LaunchEvent::InstallCheckDone(true));
    assert_eq!(describe(launch.handle(LaunchEvent::UrlOpenFailed)), vec!["fail"]);

    let mut launch = WindowsAppLaunch::new("/w", None);
    launch.handle(LaunchEvent::Begin);
    launch.handle(LaunchEvent::InstallCheckDone(false));
    launch.handle(LaunchEvent::UrlOpenFailed);
    assert_eq!(describe(launch.handle(LaunchEvent::UrlOpenFailed)), vec!["fail"]);
}

#[test]
fn events_out_of_order_are_ignored() {
    let mut launch = WindowsAppLaunch::new("/w", None);
    assert!(launch.handle(LaunchEvent::UrlOpened).is_empty());
    assert_eq!(launch.phase(), LaunchPhase::NotStarted);
    launch.handle(LaunchEvent::Begin);
    assert!(launch.handle(LaunchEvent::Begin).is_empty());
    assert_eq!(launch.phase(), LaunchPhase::CheckingInstall);
}

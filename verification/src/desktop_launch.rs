//! The open-or-install sequence of the Windows desktop app, as a state
//! machine. The caller performs each action (probe for the app, open a URL,
//! print a notice) and reports what happened as the next event.

use vstd::prelude::*;
use crate::desktop_app::{codewen_new_thread_url, display_workspace_path, spec_codewen_new_thread_url, spec_display_workspace_path};

verus! {

/// Installer download used when no override is given.
pub const CODEX_WINDOWS_INSTALLER_URL: &'static str =
    "https://get.microsoft.com/installer/download/9PLM9XGG6VKS?cid=website_cta_psi";

/// Microsoft Store page, the fallback when the installer cannot be opened.
pub const CODEX_MICROSOFT_STORE_WEB_URL: &'static str = "https://apps.microsoft.com/detail/9plm9xgg6vks";

/// Where the launch stands.
#[derive(PartialEq, Eq, Structural, Clone, Copy, Debug)]
pub enum LaunchPhase {
    NotStarted,
    CheckingInstall,
    OpeningWorkspace,
    OpeningInstaller,
    OpeningStorePage,
    Done,
}

/// What the caller reports back.
#[derive(PartialEq, Eq, Structural, Clone, Copy, Debug)]
pub enum LaunchEvent {
    /// Start the launch.
    Begin,
    /// The probe ran; whether it found the app.
    InstallCheckDone(bool),
    /// The probe could not be run.
    InstallCheckFailed,
    /// The requested URL was opened.
    UrlOpened,
    /// Opening the requested URL failed.
    UrlOpenFailed,
}

/// What the caller is asked to do.
pub enum LaunchAction {
    /// Probe whether the desktop app is installed.
    CheckInstalled,
    /// Print this notice for the user.
    Notify(String),
    /// Open this URL.
    OpenUrl(String),
    /// Finish successfully.
    Succeed,
    /// Finish with the error that the last step reported.
    Fail,
}

/// The view of an action, with its text as characters.
pub enum LaunchActionView {
    CheckInstalled,
    Notify(Seq<char>),
    OpenUrl(Seq<char>),
    Succeed,
    Fail,
}

impl View for LaunchAction {
    type V = LaunchActionView;

    open spec fn view(&self) -> LaunchActionView {
        match self {
            LaunchAction::CheckInstalled => LaunchActionView::CheckInstalled,
            LaunchAction::Notify(s) => LaunchActionView::Notify(s@),
            LaunchAction::OpenUrl(s) => LaunchActionView::OpenUrl(s@),
            LaunchAction::Succeed => LaunchActionView::Succeed,
            LaunchAction::Fail => LaunchActionView::Fail,
        }
    }
}

/// The views of a list of actions.
pub open spec fn actions_view(actions: Seq<LaunchAction>) -> Seq<LaunchActionView> {
    actions.map_values(|a: LaunchAction| a@)
}

/// Notice printed before the workspace is opened in the installed app.
pub open spec fn opening_notice(workspace: Seq<char>) -> Seq<char> {
    "Opening workspace "@ + spec_display_workspace_path(workspace) + " in the Desktop app..."@
}

/// Notice printed when the app is missing.
pub open spec fn not_found_notice() -> Seq<char> {
    "Desktop app not found; opening Windows installer..."@
}

/// Notice printed once the installer (or the store page) has been opened.
pub open spec fn after_install_notice(workspace: Seq<char>) -> Seq<char> {
    "After installing the Desktop app, open workspace "@ + spec_display_workspace_path(workspace)
        + "."@
}

/// The installer URL: the override when one is given, else the default.
pub open spec fn installer_url(download_url_override: Option<Seq<char>>) -> Seq<char> {
    match download_url_override {
        Some(u) => u,
        None => CODEX_WINDOWS_INSTALLER_URL@,
    }
}

/// One step of the launch: from a phase and an event, the next phase and the
/// actions to take. An event that does not fit the phase changes nothing.
pub open spec fn launch_step(
    workspace: Seq<char>,
    download_url_override: Option<Seq<char>>,
    phase: LaunchPhase,
    event: LaunchEvent,
) -> (LaunchPhase, Seq<LaunchActionView>) {
    match (phase, event) {
        (LaunchPhase::NotStarted, LaunchEvent::Begin) => (
            LaunchPhase::CheckingInstall,
            seq![LaunchActionView::CheckInstalled],
        ),
        (LaunchPhase::CheckingInstall, LaunchEvent::InstallCheckDone(true)) => (
            LaunchPhase::OpeningWorkspace,
            seq![
                LaunchActionView::Notify(opening_notice(workspace)),
                LaunchActionView::OpenUrl(spec_codewen_new_thread_url(workspace)),
            ],
        ),
        (LaunchPhase::CheckingInstall, LaunchEvent::InstallCheckDone(false)) => (
            LaunchPhase::OpeningInstaller,
            seq![
                LaunchActionView::Notify(not_found_notice()),
                LaunchActionView::OpenUrl(installer_url(download_url_override)),
            ],
        ),
        (LaunchPhase::CheckingInstall, LaunchEvent::InstallCheckFailed) => (
            LaunchPhase::Done,
            seq![LaunchActionView::Fail],
        ),
        (LaunchPhase::OpeningWorkspace, LaunchEvent::UrlOpened) => (
            LaunchPhase::Done,
            seq![LaunchActionView::Succeed],
        ),
        (LaunchPhase::OpeningWorkspace, LaunchEvent::UrlOpenFailed) => (
            LaunchPhase::Done,
            seq![LaunchActionView::Fail],
        ),
        (LaunchPhase::OpeningInstaller, LaunchEvent::UrlOpenFailed) => {
            if download_url_override is None {
                (
                    LaunchPhase::OpeningStorePage,
                    seq![LaunchActionView::OpenUrl(CODEX_MICROSOFT_STORE_WEB_URL@)],
                )
            } else {
                (
                    LaunchPhase::Done,
                    seq![
                        LaunchActionView::Notify(after_install_notice(workspace)),
                        LaunchActionView::Succeed,
                    ],
                )
            }
        },
        (LaunchPhase::OpeningInstaller, LaunchEvent::UrlOpened) => (
            LaunchPhase::Done,
            seq![LaunchActionView::Notify(after_install_notice(workspace)), LaunchActionView::Succeed],
        ),
        (LaunchPhase::OpeningStorePage, LaunchEvent::UrlOpened) => (
            LaunchPhase::Done,
            seq![LaunchActionView::Notify(after_install_notice(workspace)), LaunchActionView::Succeed],
        ),
        (LaunchPhase::OpeningStorePage, LaunchEvent::UrlOpenFailed) => (
            LaunchPhase::Done,
            seq![LaunchActionView::Fail],
        ),
        _ => (phase, Seq::empty()),
    }
}

/// A launch of the desktop app on a workspace.
pub struct WindowsAppLaunch {
    workspace_path: String,
    download_url_override: Option<String>,
    phase: LaunchPhase,
}

impl WindowsAppLaunch {
    /// The workspace path, as given.
    pub closed spec fn workspace(&self) -> Seq<char> {
        self.workspace_path@
    }

    /// The installer override, as given.
    pub closed spec fn download_override(&self) -> Option<Seq<char>> {
        match self.download_url_override {
            Some(u) => Some(u@),
            None => None,
        }
    }

    /// The current phase.
    pub closed spec fn spec_phase(&self) -> LaunchPhase {
        self.phase
    }

    /// A launch on `workspace_path` that has not started yet.
    pub fn new(workspace_path: &str, download_url_override: Option<String>) -> (res: Self)
        ensures
            res.workspace() == workspace_path@,
            res.download_override() == (match download_url_override {
                Some(u) => Some(u@),
                None => None::<Seq<char>>,
            }),
            res.spec_phase() == LaunchPhase::NotStarted,
    {
        WindowsAppLaunch {
            workspace_path: String::from_str(workspace_path),
            download_url_override,
            phase: LaunchPhase::NotStarted,
        }
    }

    /// The current phase.
    pub fn phase(&self) -> (res: LaunchPhase)
        ensures
            res == self.spec_phase(),
    {
        self.phase
    }

    fn opening_notice(&self) -> (res: String)
        ensures
            res@ == opening_notice(self.workspace()),
    {
        let shown = display_workspace_path(self.workspace_path.as_str());
        let mut notice = String::from_str("Opening workspace ");
        notice.append(shown.as_str());
        notice.append(" in the Desktop app...");
        notice
    }

    fn after_install_notice(&self) -> (res: String)
        ensures
            res@ == after_install_notice(self.workspace()),
    {
        let shown = display_workspace_path(self.workspace_path.as_str());
        let mut notice = String::from_str("After installing the Desktop app, open workspace ");
        notice.append(shown.as_str());
        notice.append(".");
        notice
    }

    /// Takes the next event and returns the actions to perform, as
    /// `launch_step` says; the workspace and the override stay as they were.
    pub fn handle(&mut self, event: LaunchEvent) -> (res: Vec<LaunchAction>)
        ensures
            final(self).workspace() == old(self).workspace(),
            final(self).download_override() == old(self).download_override(),
            (final(self).spec_phase(), actions_view(res@)) == launch_step(
                old(self).workspace(),
                old(self).download_override(),
                old(self).spec_phase(),
                event,
            ),
    {
        let mut actions: Vec<LaunchAction> = Vec::new();
        match (self.phase, event) {
            (LaunchPhase::NotStarted, LaunchEvent::Begin) => {
                self.phase = LaunchPhase::CheckingInstall;
                actions.push(LaunchAction::CheckInstalled);
            },
            (LaunchPhase::CheckingInstall, LaunchEvent::InstallCheckDone(true)) => {
                self.phase = LaunchPhase::OpeningWorkspace;
                actions.push(LaunchAction::Notify(self.opening_notice()));
                actions.push(
                    LaunchAction::OpenUrl(codewen_new_thread_url(self.workspace_path.as_str())),
                );
            },
            (LaunchPhase::CheckingInstall, LaunchEvent::InstallCheckDone(false)) => {
                self.phase = LaunchPhase::OpeningInstaller;
                actions.push(
                    LaunchAction::Notify(
                        String::from_str("Desktop app not found; opening Windows installer..."),
                    ),
                );
                let url = match &self.download_url_override {
                    Some(u) => u.clone(),
                    None => String::from_str(CODEX_WINDOWS_INSTALLER_URL),
                };
                actions.push(LaunchAction::OpenUrl(url));
            },
            (LaunchPhase::CheckingInstall, LaunchEvent::InstallCheckFailed) => {
                self.phase = LaunchPhase::Done;
                actions.push(LaunchAction::Fail);
            },
            (LaunchPhase::OpeningWorkspace, LaunchEvent::UrlOpened) => {
                self.phase = LaunchPhase::Done;
                actions.push(LaunchAction::Succeed);
            },
            (LaunchPhase::OpeningWorkspace, LaunchEvent::UrlOpenFailed) => {
                self.phase = LaunchPhase::Done;
                actions.push(LaunchAction::Fail);
            },
            (LaunchPhase::OpeningInstaller, LaunchEvent::UrlOpenFailed) => {
                if self.download_url_override.is_none() {
                    self.phase = LaunchPhase::OpeningStorePage;
                    actions.push(
                        LaunchAction::OpenUrl(String::from_str(CODEX_MICROSOFT_STORE_WEB_URL)),
                    );
                } else {
                    self.phase = LaunchPhase::Done;
                    actions.push(LaunchAction::Notify(self.after_install_notice()));
                    actions.push(LaunchAction::Succeed);
                }
            },
            (LaunchPhase::OpeningInstaller, LaunchEvent::UrlOpened) => {
                self.phase = LaunchPhase::Done;
                actions.push(LaunchAction::Notify(self.after_install_notice()));
                actions.push(LaunchAction::Succeed);
            },
            (LaunchPhase::OpeningStorePage, LaunchEvent::UrlOpened) => {
                self.phase = LaunchPhase::Done;
                actions.push(LaunchAction::Notify(self.after_install_notice()));
                actions.push(LaunchAction::Succeed);
            },
            (LaunchPhase::OpeningStorePage, LaunchEvent::UrlOpenFailed) => {
                self.phase = LaunchPhase::Done;
                actions.push(LaunchAction::Fail);
            },
            _ => {},
        }
        assert(actions_view(actions@) =~= launch_step(
            old(self).workspace(),
            old(self).download_override(),
            old(self).spec_phase(),
            event,
        ).1);
        actions
    }
}

/// How far a phase is from the end of the launch.
pub open spec fn phase_rank(phase: LaunchPhase) -> nat {
    match phase {
        LaunchPhase::NotStarted => 5,
        LaunchPhase::CheckingInstall => 4,
        LaunchPhase::OpeningInstaller => 3,
        LaunchPhase::OpeningStorePage => 2,
        LaunchPhase::OpeningWorkspace => 1,
        LaunchPhase::Done => 0,
    }
}

/// Every step either ignores the event (same phase, nothing to do) or moves
/// strictly closer to the end, so a launch takes at most five steps that do
/// something; a finished launch ignores every event.
pub proof fn lemma_launch_progresses(
    workspace: Seq<char>,
    download_url_override: Option<Seq<char>>,
    phase: LaunchPhase,
    event: LaunchEvent,
)
    ensures
        ({
            let (next, actions) = launch_step(workspace, download_url_override, phase, event);
            ||| (next == phase && actions.len() == 0)
            ||| (phase_rank(next) < phase_rank(phase) && actions.len() > 0)
        }),
        phase == LaunchPhase::Done ==> launch_step(workspace, download_url_override, phase, event)
            == (phase, Seq::<LaunchActionView>::empty()),
{
}

/// The workspace is opened in the app only right after the probe found the
/// app installed.
pub proof fn lemma_workspace_opened_only_when_installed(
    workspace: Seq<char>,
    download_url_override: Option<Seq<char>>,
    phase: LaunchPhase,
    event: LaunchEvent,
)
    ensures
        ({
            let (next, actions) = launch_step(workspace, download_url_override, phase, event);
            actions.contains(LaunchActionView::OpenUrl(spec_codewen_new_thread_url(workspace)))
                ==> phase == LaunchPhase::CheckingInstall
        }),
        launch_step(workspace, download_url_override, phase, event).0
            == LaunchPhase::OpeningWorkspace && phase != LaunchPhase::OpeningWorkspace ==> phase
            == LaunchPhase::CheckingInstall && event == LaunchEvent::InstallCheckDone(true),
{
    let (next, actions) = launch_step(workspace, download_url_override, phase, event);
    if actions.contains(LaunchActionView::OpenUrl(spec_codewen_new_thread_url(workspace))) {
        let i = choose|i: int|
            0 <= i < actions.len() && actions[i] == LaunchActionView::OpenUrl(
                spec_codewen_new_thread_url(workspace),
            );
        assert(phase == LaunchPhase::CheckingInstall || phase == LaunchPhase::OpeningInstaller);
        if phase == LaunchPhase::OpeningInstaller {
            assert(event == LaunchEvent::UrlOpenFailed);
            assert(download_url_override is None);
            assert(spec_codewen_new_thread_url(workspace).len() > 0);
            assert(CODEX_MICROSOFT_STORE_WEB_URL@ =~= "https://apps.microsoft.com/detail/9plm9xgg6vks"@);
            assert(spec_codewen_new_thread_url(workspace)[0] == 'c') by {
                reveal_strlit("codewen://threads/new?");
            }
            assert(CODEX_MICROSOFT_STORE_WEB_URL@[0] == 'h') by {
                reveal_strlit("https://apps.microsoft.com/detail/9plm9xgg6vks");
            }
        }
    }
}

/// The Microsoft Store page is tried only after the installer could not be
/// opened, and never when the caller gave an installer override.
pub proof fn lemma_store_page_only_without_override(
    workspace: Seq<char>,
    download_url_override: Option<Seq<char>>,
    phase: LaunchPhase,
    event: LaunchEvent,
)
    ensures
        launch_step(workspace, download_url_override, phase, event).0
            == LaunchPhase::OpeningStorePage && phase != LaunchPhase::OpeningStorePage ==> phase
            == LaunchPhase::OpeningInstaller && event == LaunchEvent::UrlOpenFailed
            && download_url_override is None,
{
}

/// The launch fails only when the step that was just reported failed: the
/// probe could not run, or a URL that must open did not.
pub proof fn lemma_fails_only_on_failure(
    workspace: Seq<char>,
    download_url_override: Option<Seq<char>>,
    phase: LaunchPhase,
    event: LaunchEvent,
)
    ensures
        launch_step(workspace, download_url_override, phase, event).1.contains(
            LaunchActionView::Fail,
        ) ==> event == LaunchEvent::InstallCheckFailed || event == LaunchEvent::UrlOpenFailed,
        launch_step(workspace, download_url_override, phase, event).1.contains(
            LaunchActionView::Fail,
        ) || launch_step(workspace, download_url_override, phase, event).1.contains(
            LaunchActionView::Succeed,
        ) ==> launch_step(workspace, download_url_override, phase, event).0 == LaunchPhase::Done,
{
    let actions = launch_step(workspace, download_url_override, phase, event).1;
    if actions.contains(LaunchActionView::Fail) {
        let i = choose|i: int| 0 <= i < actions.len() && actions[i] == LaunchActionView::Fail;
    }
    if actions.contains(LaunchActionView::Succeed) {
        let i = choose|i: int| 0 <= i < actions.len() && actions[i] == LaunchActionView::Succeed;
    }
}

/// `event` reports that the step just performed failed.
pub open spec fn is_failure_event(event: LaunchEvent) -> bool {
    event == LaunchEvent::InstallCheckFailed || event == LaunchEvent::UrlOpenFailed
}

/// What each step does, over every workspace and override, in terms of the
/// inputs and the texts the user sees:
/// - starting asks for the install probe;
/// - a found app gets the opening notice and the workspace's thread URL;
/// - a missing app gets the not-found notice and exactly one URL: the
///   override when one is given, the default installer only when none is;
/// - an opened installer or store page ends the launch with the
///   after-install notice and success, as does a failed override;
/// - a failed default installer falls back to the store page;
/// - every other failure ends the launch with the error.
pub proof fn lemma_launch_steps(workspace: Seq<char>, download_url_override: Option<Seq<char>>)
    ensures
        ({
            let step = |phase: LaunchPhase, event: LaunchEvent|
                launch_step(workspace, download_url_override, phase, event);
            let shown = spec_display_workspace_path(workspace);
            let after = LaunchActionView::Notify(
                "After installing the Desktop app, open workspace "@ + shown + "."@,
            );
            &&& step(LaunchPhase::NotStarted, LaunchEvent::Begin) == (
                LaunchPhase::CheckingInstall,
                seq![LaunchActionView::CheckInstalled],
            )
            &&& step(LaunchPhase::CheckingInstall, LaunchEvent::InstallCheckDone(true)) == (
                LaunchPhase::OpeningWorkspace,
                seq![
                    LaunchActionView::Notify(
                        "Opening workspace "@ + shown + " in the Desktop app..."@,
                    ),
                    LaunchActionView::OpenUrl(spec_codewen_new_thread_url(workspace)),
                ],
            )
            &&& step(LaunchPhase::CheckingInstall, LaunchEvent::InstallCheckDone(false)) == (
                LaunchPhase::OpeningInstaller,
                seq![
                    LaunchActionView::Notify(
                        "Desktop app not found; opening Windows installer..."@,
                    ),
                    LaunchActionView::OpenUrl(
                        match download_url_override {
                            Some(u) => u,
                            None =>
                                "https://get.microsoft.com/installer/download/9PLM9XGG6VKS?cid=website_cta_psi"@,
                        },
                    ),
                ],
            )
            &&& step(LaunchPhase::CheckingInstall, LaunchEvent::InstallCheckFailed) == (
                LaunchPhase::Done,
                seq![LaunchActionView::Fail],
            )
            &&& step(LaunchPhase::OpeningWorkspace, LaunchEvent::UrlOpened) == (
                LaunchPhase::Done,
                seq![LaunchActionView::Succeed],
            )
            &&& step(LaunchPhase::OpeningWorkspace, LaunchEvent::UrlOpenFailed) == (
                LaunchPhase::Done,
                seq![LaunchActionView::Fail],
            )
            &&& step(LaunchPhase::OpeningInstaller, LaunchEvent::UrlOpened) == (
                LaunchPhase::Done,
                seq![after, LaunchActionView::Succeed],
            )
            &&& download_url_override is Some ==> step(
                LaunchPhase::OpeningInstaller,
                LaunchEvent::UrlOpenFailed,
            ) == (LaunchPhase::Done, seq![after, LaunchActionView::Succeed])
            &&& download_url_override is None ==> step(
                LaunchPhase::OpeningInstaller,
                LaunchEvent::UrlOpenFailed,
            ) == (
                LaunchPhase::OpeningStorePage,
                seq![LaunchActionView::OpenUrl("https://apps.microsoft.com/detail/9plm9xgg6vks"@)],
            )
            &&& step(LaunchPhase::OpeningStorePage, LaunchEvent::UrlOpened) == (
                LaunchPhase::Done,
                seq![after, LaunchActionView::Succeed],
            )
            &&& step(LaunchPhase::OpeningStorePage, LaunchEvent::UrlOpenFailed) == (
                LaunchPhase::Done,
                seq![LaunchActionView::Fail],
            )
        }),
{
    let step = |phase: LaunchPhase, event: LaunchEvent|
        launch_step(workspace, download_url_override, phase, event);
    let shown = spec_display_workspace_path(workspace);
    assert(step(LaunchPhase::NotStarted, LaunchEvent::Begin).1 =~= seq![
        LaunchActionView::CheckInstalled,
    ]);
}

/// How a step ends, over every phase and event:
/// - a step that finishes the launch ends with exactly one `Succeed` or
///   `Fail`, as its last action, and no step that keeps the launch going
///   holds either;
/// - the finishing action is `Fail` exactly when the event reported a
///   failure that the launch cannot pass over (all failures but that of an
///   installer override);
/// - a step opens at most one URL.
pub proof fn lemma_launch_step_endings(
    workspace: Seq<char>,
    download_url_override: Option<Seq<char>>,
    phase: LaunchPhase,
    event: LaunchEvent,
)
    ensures
        ({
            let (next, actions) = launch_step(workspace, download_url_override, phase, event);
            let finishing = |a: LaunchActionView| a is Succeed || a is Fail;
            &&& next == LaunchPhase::Done && phase != LaunchPhase::Done ==> {
                &&& actions.len() > 0
                &&& finishing(actions.last())
                &&& forall|i: int| 0 <= i < actions.len() - 1 ==> !finishing(#[trigger] actions[i])
                &&& (actions.last() is Fail <==> is_failure_event(event) && !(phase
                    == LaunchPhase::OpeningInstaller && download_url_override is Some))
            }
            &&& next != LaunchPhase::Done || phase == LaunchPhase::Done ==> forall|i: int|
                0 <= i < actions.len() ==> !finishing(#[trigger] actions[i])
            &&& forall|i: int, j: int|
                0 <= i < actions.len() && 0 <= j < actions.len() && (#[trigger] actions[i]) is OpenUrl
                    && (#[trigger] actions[j]) is OpenUrl ==> i == j
        }),
{
}
} // verus!

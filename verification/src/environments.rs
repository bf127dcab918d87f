//! Resolution of the request parameters that name a working directory and
//! the execution environments of a turn.
//!
//! Path syntax is judged elsewhere: each client path arrives with the
//! absolute path URI inferred from it, or with none when the path uses
//! neither absolute POSIX nor absolute Windows syntax.

use vstd::prelude::*;
use crate::dedup::{dedup_first, lemma_dedup_first_props, no_repeats};

verus! {

/// A path as the client sent it, with the absolute path URI inferred from it
/// (`None` when the path is not in absolute POSIX or Windows syntax).
pub struct ClientPath {
    pub raw: String,
    pub inferred: Option<String>,
}

/// View of a [`ClientPath`].
pub struct ClientPathView {
    pub raw: Seq<char>,
    pub inferred: Option<Seq<char>>,
}

impl View for ClientPath {
    type V = ClientPathView;

    open spec fn view(&self) -> ClientPathView {
        ClientPathView {
            raw: self.raw@,
            inferred: match self.inferred {
                Some(u) => Some(u@),
                None => None,
            },
        }
    }
}

/// The environment part of a turn request.
pub struct TurnEnvironmentParams {
    pub environment_id: String,
    pub cwd: ClientPath,
    pub runtime_workspace_roots: Option<Vec<ClientPath>>,
}

/// View of [`TurnEnvironmentParams`].
pub struct TurnEnvironmentParamsView {
    pub environment_id: Seq<char>,
    pub cwd: ClientPathView,
    pub runtime_workspace_roots: Option<Seq<ClientPathView>>,
}

/// Views of a list of client paths.
pub open spec fn client_paths_view(paths: Seq<ClientPath>) -> Seq<ClientPathView> {
    paths.map_values(|p: ClientPath| p@)
}

impl View for TurnEnvironmentParams {
    type V = TurnEnvironmentParamsView;

    open spec fn view(&self) -> TurnEnvironmentParamsView {
        TurnEnvironmentParamsView {
            environment_id: self.environment_id@,
            cwd: self.cwd@,
            runtime_workspace_roots: match self.runtime_workspace_roots {
                Some(roots) => Some(client_paths_view(roots@)),
                None => None,
            },
        }
    }
}

/// The environment a turn runs in, with its working directory and
/// workspace roots as path URIs.
pub struct TurnEnvironmentSelection {
    pub environment_id: String,
    pub cwd: String,
    pub workspace_roots: Vec<String>,
}

/// View of a [`TurnEnvironmentSelection`].
pub struct TurnEnvironmentSelectionView {
    pub environment_id: Seq<char>,
    pub cwd: Seq<char>,
    pub workspace_roots: Seq<Seq<char>>,
}

/// Views of a list of strings.
pub open spec fn strings_view(strings: Seq<String>) -> Seq<Seq<char>> {
    strings.map_values(|s: String| s@)
}

impl View for TurnEnvironmentSelection {
    type V = TurnEnvironmentSelectionView;

    open spec fn view(&self) -> TurnEnvironmentSelectionView {
        TurnEnvironmentSelectionView {
            environment_id: self.environment_id@,
            cwd: self.cwd@,
            workspace_roots: strings_view(self.workspace_roots@),
        }
    }
}

/// Views of a list of selections.
pub open spec fn selections_view(
    selections: Seq<TurnEnvironmentSelection>,
) -> Seq<TurnEnvironmentSelectionView> {
    selections.map_values(|s: TurnEnvironmentSelection| s@)
}

/// A JSON-RPC "invalid request" error with its message.
pub struct InvalidRequest {
    pub message: String,
}

/// Why environment selections could not be resolved: a path was rejected,
/// or the thread manager refused the selections with `E`.
pub enum EnvironmentSelectionError<E> {
    InvalidRequest(InvalidRequest),
    Rejected(E),
}

/// Message for a working directory that is not an absolute path.
pub open spec fn invalid_cwd_message(environment_id: Seq<char>, raw: Seq<char>) -> Seq<char> {
    "invalid cwd for environment `"@ + environment_id + "`: path `"@ + raw
        + "` does not use absolute POSIX or Windows path syntax"@
}

/// Message for a workspace root that is not an absolute path.
pub open spec fn invalid_root_message(environment_id: Seq<char>, raw: Seq<char>) -> Seq<char> {
    "invalid runtime workspace root for environment `"@ + environment_id + "`: path `"@ + raw
        + "` does not use absolute POSIX or Windows path syntax"@
}

/// The inferred URIs of `roots`, or the message for the first root that has
/// none.
pub open spec fn spec_infer_roots(environment_id: Seq<char>, roots: Seq<ClientPathView>) -> Result<
    Seq<Seq<char>>,
    Seq<char>,
>
    decreases roots.len(),
{
    if roots.len() == 0 {
        Ok(Seq::empty())
    } else {
        match spec_infer_roots(environment_id, roots.drop_last()) {
            Err(m) => Err(m),
            Ok(uris) => match roots.last().inferred {
                Some(u) => Ok(uris.push(u)),
                None => Err(invalid_root_message(environment_id, roots.last().raw)),
            },
        }
    }
}

/// One environment resolved: its working directory must be absolute, as
/// must every runtime workspace root; the roots lose their repeats, and
/// without roots the working directory is the only root.
pub open spec fn spec_resolve_environment(env: TurnEnvironmentParamsView) -> Result<
    TurnEnvironmentSelectionView,
    Seq<char>,
> {
    match env.cwd.inferred {
        None => Err(invalid_cwd_message(env.environment_id, env.cwd.raw)),
        Some(cwd) => match env.runtime_workspace_roots {
            None => Ok(
                TurnEnvironmentSelectionView {
                    environment_id: env.environment_id,
                    cwd,
                    workspace_roots: seq![cwd],
                },
            ),
            Some(roots) => match spec_infer_roots(env.environment_id, roots) {
                Err(m) => Err(m),
                Ok(uris) => Ok(
                    TurnEnvironmentSelectionView {
                        environment_id: env.environment_id,
                        cwd,
                        workspace_roots: dedup_first(uris),
                    },
                ),
            },
        },
    }
}

/// All environments resolved in order, or the message of the first that
/// fails.
pub open spec fn spec_resolve_environments(envs: Seq<TurnEnvironmentParamsView>) -> Result<
    Seq<TurnEnvironmentSelectionView>,
    Seq<char>,
>
    decreases envs.len(),
{
    if envs.len() == 0 {
        Ok(Seq::empty())
    } else {
        match spec_resolve_environments(envs.drop_last()) {
            Err(m) => Err(m),
            Ok(sels) => match spec_resolve_environment(envs.last()) {
                Err(m) => Err(m),
                Ok(sel) => Ok(sels.push(sel)),
            },
        }
    }
}

/// Removes repeated workspace roots, keeping the first occurrence of each
/// in its place.
pub fn resolve_runtime_workspace_roots(workspace_roots: Vec<String>) -> (res: Vec<String>)
    ensures
        strings_view(res@) == dedup_first(strings_view(workspace_roots@)),
{
    let mut resolved_roots: Vec<String> = Vec::new();
    let n = workspace_roots.len();
    let mut i: usize = 0;
    while i < n
        invariant
            n == workspace_roots@.len(),
            i <= n,
            strings_view(resolved_roots@) == dedup_first(
                strings_view(workspace_roots@).subrange(0, i as int),
            ),
        decreases n - i,
    {
        let root = &workspace_roots[i];
        let ghost prefix = strings_view(workspace_roots@).subrange(0, i as int + 1);
        assert(prefix.drop_last() =~= strings_view(workspace_roots@).subrange(0, i as int));
        assert(prefix.last() == root@);
        if !contains_string(&resolved_roots, root) {
            resolved_roots.push(root.clone());
            assert(strings_view(resolved_roots@) =~= dedup_first(prefix));
        }
        i = i + 1;
    }
    assert(strings_view(workspace_roots@).subrange(0, n as int) =~= strings_view(workspace_roots@));
    resolved_roots
}

/// Whether `list` holds a string equal to `s`.
fn contains_string(list: &Vec<String>, s: &String) -> (res: bool)
    ensures
        res == strings_view(list@).contains(s@),
{
    let n = list.len();
    let mut i: usize = 0;
    while i < n
        invariant
            n == list@.len(),
            i <= n,
            forall|j: int| 0 <= j < i ==> list@[j]@ != s@,
        decreases n - i,
    {
        if list[i] == *s {
            assert(strings_view(list@)[i as int] == s@);
            return true;
        }
        i = i + 1;
    }
    assert forall|j: int| 0 <= j < strings_view(list@).len() implies strings_view(list@)[j] != s@ by {
        assert(strings_view(list@)[j] == list@[j]@);
    }
    false
}

fn invalid_path_message(lead: &str, environment_id: &String, raw: &String) -> (res: String)
    ensures
        res@ == lead@ + environment_id@ + "`: path `"@ + raw@
            + "` does not use absolute POSIX or Windows path syntax"@,
{
    let mut message = String::from_str(lead);
    message.append(environment_id.as_str());
    message.append("`: path `");
    message.append(raw.as_str());
    message.append("` does not use absolute POSIX or Windows path syntax");
    message
}

/// The inferred URIs of the roots, or the message for the first root that
/// has none.
fn infer_roots(environment_id: &String, roots: &Vec<ClientPath>) -> (res: Result<Vec<String>, String>)
    ensures
        match spec_infer_roots(environment_id@, client_paths_view(roots@)) {
            Ok(uris) => res matches Ok(v) && strings_view(v@) == uris,
            Err(m) => res matches Err(e) && e@ == m,
        },
{
    let mut uris: Vec<String> = Vec::new();
    let n = roots.len();
    let mut i: usize = 0;
    assert(client_paths_view(roots@).subrange(0, 0) =~= Seq::<ClientPathView>::empty());
    assert(strings_view(uris@) =~= Seq::<Seq<char>>::empty());
    while i < n
        invariant
            n == roots@.len(),
            i <= n,
            spec_infer_roots(environment_id@, client_paths_view(roots@).subrange(0, i as int))
                == Ok::<Seq<Seq<char>>, Seq<char>>(strings_view(uris@)),
        decreases n - i,
    {
        let ghost prefix = client_paths_view(roots@).subrange(0, i as int + 1);
        assert(prefix.drop_last() =~= client_paths_view(roots@).subrange(0, i as int));
        assert(prefix.last() == roots@[i as int]@);
        match &roots[i].inferred {
            Some(u) => {
                let ghost before = uris@;
                uris.push(u.clone());
                assert(strings_view(uris@) =~= strings_view(before).push(u@));
            },
            None => {
                let message = invalid_path_message(
                    "invalid runtime workspace root for environment `",
                    environment_id,
                    &roots[i].raw,
                );
                assert(message@ =~= invalid_root_message(environment_id@, roots@[i as int].raw@));
                proof {
                    lemma_infer_roots_error_persists(environment_id@, client_paths_view(roots@), i as int + 1);
                }
                return Err(message);
            },
        }
        i = i + 1;
    }
    assert(client_paths_view(roots@).subrange(0, n as int) =~= client_paths_view(roots@));
    Ok(uris)
}

proof fn lemma_infer_roots_error_persists(environment_id: Seq<char>, roots: Seq<ClientPathView>, k: int)
    requires
        0 <= k <= roots.len(),
        spec_infer_roots(environment_id, roots.subrange(0, k)) is Err,
    ensures
        spec_infer_roots(environment_id, roots) == spec_infer_roots(environment_id, roots.subrange(0, k)),
    decreases roots.len() - k,
{
    if k < roots.len() {
        let longer = roots.subrange(0, k + 1);
        assert(longer.drop_last() =~= roots.subrange(0, k));
        lemma_infer_roots_error_persists(environment_id, roots, k + 1);
    } else {
        assert(roots.subrange(0, k) =~= roots);
    }
}

/// One environment resolved, as `spec_resolve_environment` says.
fn resolve_environment(env: &TurnEnvironmentParams) -> (res: Result<TurnEnvironmentSelection, String>)
    ensures
        match spec_resolve_environment(env@) {
            Ok(sel) => res matches Ok(v) && v@ == sel,
            Err(m) => res matches Err(e) && e@ == m,
        },
{
    let cwd = match &env.cwd.inferred {
        Some(cwd) => cwd.clone(),
        None => {
            let message = invalid_path_message(
                "invalid cwd for environment `",
                &env.environment_id,
                &env.cwd.raw,
            );
            assert(message@ =~= invalid_cwd_message(env.environment_id@, env.cwd.raw@));
            return Err(message);
        },
    };
    let workspace_roots = match &env.runtime_workspace_roots {
        Some(roots) => {
            let uris = infer_roots(&env.environment_id, roots)?;
            resolve_runtime_workspace_roots(uris)
        },
        None => {
            let roots = vec![cwd.clone()];
            assert(strings_view(roots@) =~= seq![cwd@]);
            roots
        },
    };
    Ok(TurnEnvironmentSelection { environment_id: env.environment_id.clone(), cwd, workspace_roots })
}

/// Views of a list of environment parameters.
pub open spec fn environments_view(envs: Seq<TurnEnvironmentParams>) -> Seq<
    TurnEnvironmentParamsView,
> {
    envs.map_values(|e: TurnEnvironmentParams| e@)
}

proof fn lemma_resolve_error_persists(envs: Seq<TurnEnvironmentParamsView>, k: int)
    requires
        0 <= k <= envs.len(),
        spec_resolve_environments(envs.subrange(0, k)) is Err,
    ensures
        spec_resolve_environments(envs) == spec_resolve_environments(envs.subrange(0, k)),
    decreases envs.len() - k,
{
    if k < envs.len() {
        let longer = envs.subrange(0, k + 1);
        assert(longer.drop_last() =~= envs.subrange(0, k));
        lemma_resolve_error_persists(envs, k + 1);
    } else {
        assert(envs.subrange(0, k) =~= envs);
    }
}

/// Resolves the environments of a turn request. Without environments there
/// is nothing to resolve (`Ok(None)`). Otherwise each environment, in order,
/// is resolved as `spec_resolve_environment` says, and the first path that
/// is not absolute gives an "invalid request" error with its message. The
/// resolved selections are then handed to `validate` (the thread manager's
/// check); a refusal is returned as `Rejected`, and on acceptance the
/// selections are returned.
pub fn resolve_turn_environment_selections<E, F: Fn(&Vec<TurnEnvironmentSelection>) -> Result<(), E>>(
    environments: Option<Vec<TurnEnvironmentParams>>,
    validate: F,
) -> (res: Result<Option<Vec<TurnEnvironmentSelection>>, EnvironmentSelectionError<E>>)
    requires
        forall|s: &Vec<TurnEnvironmentSelection>| validate.requires((s,)),
    ensures
        environments is None ==> res matches Ok(None),
        environments matches Some(envs) ==> (spec_resolve_environments(environments_view(envs@))
            matches Err(m) ==> (res matches Err(EnvironmentSelectionError::InvalidRequest(e))
            && e.message@ == m)),
        environments matches Some(envs) ==> (spec_resolve_environments(environments_view(envs@))
            is Ok ==> (res matches Ok(Some(_)) || res matches Err(
            EnvironmentSelectionError::Rejected(_),
        ))),
        res matches Ok(Some(v)) ==> environments matches Some(envs) && spec_resolve_environments(
            environments_view(envs@),
        ) == Ok::<Seq<TurnEnvironmentSelectionView>, Seq<char>>(selections_view(v@))
            && validate.ensures((&v,), Ok::<(), E>(())),
        res matches Err(EnvironmentSelectionError::Rejected(e)) ==> environments matches Some(envs)
            && exists|v: Vec<TurnEnvironmentSelection>|
            spec_resolve_environments(environments_view(envs@)) == Ok::<
                Seq<TurnEnvironmentSelectionView>,
                Seq<char>,
            >(selections_view(v@)) && #[trigger] validate.ensures((&v,), Err(e)),
{
    let envs = match environments {
        Some(envs) => envs,
        None => return Ok(None),
    };
    let mut selections: Vec<TurnEnvironmentSelection> = Vec::new();
    let n = envs.len();
    let mut i: usize = 0;
    assert(environments_view(envs@).subrange(0, 0) =~= Seq::<TurnEnvironmentParamsView>::empty());
    assert(selections_view(selections@) =~= Seq::<TurnEnvironmentSelectionView>::empty());
    while i < n
        invariant
            environments == Some(envs),
            n == envs@.len(),
            i <= n,
            spec_resolve_environments(environments_view(envs@).subrange(0, i as int))
                == Ok::<Seq<TurnEnvironmentSelectionView>, Seq<char>>(selections_view(selections@)),
        decreases n - i,
    {
        let ghost prefix = environments_view(envs@).subrange(0, i as int + 1);
        assert(prefix.drop_last() =~= environments_view(envs@).subrange(0, i as int));
        assert(prefix.last() == envs@[i as int]@);
        match resolve_environment(&envs[i]) {
            Ok(selection) => {
                let ghost before = selections@;
                selections.push(selection);
                assert(selections_view(selections@) =~= selections_view(before).push(selections@.last()@));
            },
            Err(message) => {
                proof {
                    lemma_resolve_error_persists(environments_view(envs@), i as int + 1);
                }
                return Err(EnvironmentSelectionError::InvalidRequest(InvalidRequest { message }));
            },
        }
        i = i + 1;
    }
    assert(environments_view(envs@).subrange(0, n as int) =~= environments_view(envs@));
    let checked = validate(&selections);
    match checked {
        Ok(unit) => {
            assert(validate.ensures((&selections,), Ok(unit)));
            Ok(Some(selections))
        },
        Err(e) => {
            let res: Result<Option<Vec<TurnEnvironmentSelection>>, EnvironmentSelectionError<E>> =
                Err(EnvironmentSelectionError::Rejected(e));
            // Names the error inside the result, so that the witness below
            // is found for the postcondition (the proof fails without it).
            assert(res matches Err(EnvironmentSelectionError::Rejected(e2)) && e2 == e);
            // The selections just checked witness the refusal.
            assert(exists|v: Vec<TurnEnvironmentSelection>|
                spec_resolve_environments(environments_view(envs@)) == Ok::<
                    Seq<TurnEnvironmentSelectionView>,
                    Seq<char>,
                >(selections_view(v@)) && #[trigger] validate.ensures((&v,), Err(e)));
            res
        },
    }
}

/// Resolves the optional working directory of a request. `cwd` holds the
/// outcome of making the requested directory absolute: the absolute path,
/// or the text of the error. No directory resolves to none; a failure is an
/// "invalid request" error whose message is `invalid cwd: ` and the error.
pub fn resolve_request_cwd(cwd: Option<Result<String, String>>) -> (res: Result<Option<String>, InvalidRequest>)
    ensures
        cwd is None ==> res matches Ok(None),
        cwd matches Some(Ok(p)) ==> res matches Ok(Some(q)) && q@ == p@,
        cwd matches Some(Err(err)) ==> res matches Err(e) && e.message@ == "invalid cwd: "@ + err@,
{
    match cwd {
        None => Ok(None),
        Some(Ok(path)) => Ok(Some(path)),
        Some(Err(err)) => {
            let mut message = String::from_str("invalid cwd: ");
            message.append(err.as_str());
            Err(InvalidRequest { message })
        },
    }
}

/// Every resolved environment keeps its id and its working directory, has
/// workspace roots without repeats, and, when the request named no roots,
/// has its working directory as its only root.
pub proof fn lemma_resolved_selections_shape(envs: Seq<TurnEnvironmentParamsView>)
    ensures
        spec_resolve_environments(envs) matches Ok(sels) ==> {
            &&& sels.len() == envs.len()
            &&& forall|i: int|
                0 <= i < envs.len() ==> {
                    &&& (#[trigger] sels[i]).environment_id == envs[i].environment_id
                    &&& envs[i].cwd.inferred == Some(sels[i].cwd)
                    &&& no_repeats(sels[i].workspace_roots)
                    &&& envs[i].runtime_workspace_roots is None ==> sels[i].workspace_roots
                        == seq![sels[i].cwd]
                }
        },
    decreases envs.len(),
{
    if envs.len() > 0 {
        lemma_resolved_selections_shape(envs.drop_last());
        if let Ok(sels) = spec_resolve_environments(envs) {
            let last = envs.last();
            let sel = sels.last();
            assert(spec_resolve_environment(last) == Ok::<TurnEnvironmentSelectionView, Seq<char>>(sel));
            match last.runtime_workspace_roots {
                Some(roots) => {
                    let uris = spec_infer_roots(last.environment_id, roots)->Ok_0;
                    lemma_dedup_first_props(uris);
                },
                None => {},
            }
            assert forall|i: int| 0 <= i < envs.len() implies {
                &&& (#[trigger] sels[i]).environment_id == envs[i].environment_id
                &&& envs[i].cwd.inferred == Some(sels[i].cwd)
                &&& no_repeats(sels[i].workspace_roots)
                &&& envs[i].runtime_workspace_roots is None ==> sels[i].workspace_roots
                    == seq![sels[i].cwd]
            } by {
                if i < envs.len() - 1 {
                    assert(envs.drop_last()[i] == envs[i]);
                    assert(sels.drop_last()[i] == sels[i]);
                }
            }
        }
    }
}

/// The URIs inferred from a list of client paths, in order.
pub open spec fn inferred_uris(roots: Seq<ClientPathView>) -> Seq<Seq<char>> {
    roots.map_values(|r: ClientPathView| r.inferred->Some_0)
}

/// Inferring the roots succeeds exactly when every root has a URI, and then
/// gives those URIs in order; otherwise it reports the first root without
/// one, by its environment id and its raw path.
pub proof fn lemma_infer_roots(environment_id: Seq<char>, roots: Seq<ClientPathView>)
    ensures
        (forall|k: int| 0 <= k < roots.len() ==> (#[trigger] roots[k]).inferred is Some) ==> spec_infer_roots(environment_id, roots)
            == Ok::<Seq<Seq<char>>, Seq<char>>(inferred_uris(roots)),
        spec_infer_roots(environment_id, roots) matches Err(m) ==> exists|k: int|
            0 <= k < roots.len() && (#[trigger] roots[k]).inferred is None && (forall|j: int|
                0 <= j < k ==> (#[trigger] roots[j]).inferred is Some) && m
                == "invalid runtime workspace root for environment `"@ + environment_id
                + "`: path `"@ + roots[k].raw
                + "` does not use absolute POSIX or Windows path syntax"@,
        spec_infer_roots(environment_id, roots) is Ok ==> forall|k: int|
            0 <= k < roots.len() ==> (#[trigger] roots[k]).inferred is Some,
    decreases roots.len(),
{
    if roots.len() == 0 {
        assert(inferred_uris(roots) =~= Seq::<Seq<char>>::empty());
    }
    if roots.len() > 0 {
        let rest = roots.drop_last();
        lemma_infer_roots(environment_id, rest);
        assert(forall|k: int| 0 <= k < rest.len() ==> rest[k] == roots[k]);
        if forall|k: int| 0 <= k < roots.len() ==> (#[trigger] roots[k]).inferred is Some {
            assert(forall|k: int| 0 <= k < rest.len() ==> (#[trigger] rest[k]).inferred is Some);
            assert(inferred_uris(rest).push(roots.last().inferred->Some_0) =~= inferred_uris(roots));
        }
        match spec_infer_roots(environment_id, rest) {
            Err(m) => {
                let k = choose|k: int|
                    0 <= k < rest.len() && (#[trigger] rest[k]).inferred is None && (forall|j: int|
                        0 <= j < k ==> (#[trigger] rest[j]).inferred is Some) && m
                        == "invalid runtime workspace root for environment `"@ + environment_id
                        + "`: path `"@ + rest[k].raw
                        + "` does not use absolute POSIX or Windows path syntax"@;
                assert(roots[k] == rest[k]);
                assert(forall|j: int| 0 <= j < k ==> rest[j] == roots[j]);
            },
            Ok(_) => {
                if roots.last().inferred is None {
                    let k = roots.len() - 1;
                    assert(roots[k].inferred is None);
                } else {
                    assert forall|k: int| 0 <= k < roots.len() implies (#[trigger] roots[k]).inferred is Some by {
                        if k < rest.len() {
                            assert(rest[k] == roots[k]);
                        }
                    }
                }
            },
        }
    }
}

/// What one environment resolves to, over every request:
/// - a working directory without a URI is an error naming the environment
///   and the raw path;
/// - otherwise the selection has the environment's id and the working
///   directory's URI;
/// - without runtime workspace roots, that URI is the only root;
/// - with them, the roots are exactly the URIs inferred from the given
///   roots, each once, first occurrences in order, whether or not one of
///   them is the working directory; a given root without a URI is an error
///   naming the first such root.
pub proof fn lemma_resolve_environment(env: TurnEnvironmentParamsView)
    ensures
        env.cwd.inferred is None ==> spec_resolve_environment(env) == Err::<
            TurnEnvironmentSelectionView,
            Seq<char>,
        >(
            "invalid cwd for environment `"@ + env.environment_id + "`: path `"@ + env.cwd.raw
                + "` does not use absolute POSIX or Windows path syntax"@,
        ),
        env.cwd.inferred matches Some(cwd) ==> ({
            let r = spec_resolve_environment(env);
            &&& r is Ok ==> r->Ok_0.environment_id == env.environment_id && r->Ok_0.cwd == cwd
            &&& env.runtime_workspace_roots is None ==> r is Ok && r->Ok_0.workspace_roots
                == seq![cwd]
        }),
        env.cwd.inferred is Some ==> (env.runtime_workspace_roots matches Some(roots) ==> ({
            let r = spec_resolve_environment(env);
            let all_inferred = forall|k: int|
                0 <= k < roots.len() ==> (#[trigger] roots[k]).inferred is Some;
            &&& all_inferred ==> r is Ok
            &&& all_inferred ==> r->Ok_0.workspace_roots == dedup_first(inferred_uris(roots))
            &&& all_inferred ==> no_repeats(r->Ok_0.workspace_roots)
            &&& all_inferred ==> forall|k: int|
                0 <= k < roots.len() ==> r->Ok_0.workspace_roots.contains(
                    (#[trigger] roots[k]).inferred->Some_0,
                )
            &&& all_inferred ==> forall|x: Seq<char>|
                r->Ok_0.workspace_roots.contains(x) ==> exists|k: int|
                    0 <= k < roots.len() && (#[trigger] roots[k]).inferred == Some(x)
            &&& !all_inferred ==> r is Err
        })),
{
    if let Some(cwd) = env.cwd.inferred {
        if let Some(roots) = env.runtime_workspace_roots {
            lemma_infer_roots(env.environment_id, roots);
            let uris = inferred_uris(roots);
            lemma_dedup_first_props(uris);
            if forall|k: int| 0 <= k < roots.len() ==> (#[trigger] roots[k]).inferred is Some {
                assert forall|k: int| 0 <= k < roots.len() implies dedup_first(uris).contains(
                    (#[trigger] roots[k]).inferred->Some_0,
                ) by {
                    assert(uris[k] == roots[k].inferred->Some_0);
                    assert(uris.contains(uris[k]));
                }
                assert forall|x: Seq<char>| dedup_first(uris).contains(x) implies exists|k: int|
                    0 <= k < roots.len() && (#[trigger] roots[k]).inferred == Some(x) by {
                    assert(uris.contains(x));
                    let k = choose|k: int| 0 <= k < uris.len() && uris[k] == x;
                    assert(roots[k].inferred == Some(x));
                }
            }
        }
    }
}

/// Resolving a list of environments resolves each one on its own, in
/// order: when every environment resolves, the selections are those of the
/// environments, position by position; otherwise the error is that of the
/// first environment that fails.
pub proof fn lemma_resolve_environments(envs: Seq<TurnEnvironmentParamsView>)
    ensures
        (forall|i: int| 0 <= i < envs.len() ==> (#[trigger] spec_resolve_environment(envs[i])) is Ok)
            ==> ({
            let r = spec_resolve_environments(envs);
            &&& r is Ok
            &&& r->Ok_0.len() == envs.len()
            &&& forall|i: int|
                0 <= i < envs.len() ==> Ok::<TurnEnvironmentSelectionView, Seq<char>>(
                    #[trigger] r->Ok_0[i],
                ) == spec_resolve_environment(envs[i])
        }),
        spec_resolve_environments(envs) matches Err(m) ==> exists|k: int|
            0 <= k < envs.len() && #[trigger] spec_resolve_environment(envs[k]) == Err::<
                TurnEnvironmentSelectionView,
                Seq<char>,
            >(m) && forall|j: int|
                0 <= j < k ==> (#[trigger] spec_resolve_environment(envs[j])) is Ok,
    decreases envs.len(),
{
    if envs.len() > 0 {
        let rest = envs.drop_last();
        lemma_resolve_environments(rest);
        assert(forall|i: int| 0 <= i < rest.len() ==> rest[i] == envs[i]);
        if forall|i: int| 0 <= i < envs.len() ==> (#[trigger] spec_resolve_environment(envs[i])) is Ok {
            assert(forall|i: int| 0 <= i < rest.len() ==> (#[trigger] spec_resolve_environment(rest[i])) is Ok) by {
                assert forall|i: int| 0 <= i < rest.len() implies (#[trigger] spec_resolve_environment(rest[i])) is Ok by {
                    assert(spec_resolve_environment(envs[i]) is Ok);
                }
            }
            assert(spec_resolve_environment(envs[envs.len() - 1]) is Ok);
        }
        match spec_resolve_environments(rest) {
            Err(m) => {
                let k = choose|k: int|
                    0 <= k < rest.len() && #[trigger] spec_resolve_environment(rest[k]) == Err::<
                        TurnEnvironmentSelectionView,
                        Seq<char>,
                    >(m) && forall|j: int|
                        0 <= j < k ==> (#[trigger] spec_resolve_environment(rest[j])) is Ok;
                assert(spec_resolve_environment(envs[k]) == spec_resolve_environment(rest[k]));
                assert forall|j: int| 0 <= j < k implies (#[trigger] spec_resolve_environment(envs[j])) is Ok by {
                    assert(spec_resolve_environment(rest[j]) is Ok);
                }
            },
            Ok(sels) => {
                if spec_resolve_environment(envs.last()) is Err {
                    let k = envs.len() - 1;
                    assert(spec_resolve_environment(envs[k]) is Err);
                    // all earlier ones resolve
                    if !(forall|j: int| 0 <= j < k ==> (#[trigger] spec_resolve_environment(envs[j])) is Ok) {
                        let j = choose|j: int| 0 <= j < k && !(#[trigger] spec_resolve_environment(envs[j]) is Ok);
                        lemma_resolve_environments_ok_prefix(rest, j);
                        assert(false);
                    }
                }
            },
        }
    }
}

proof fn lemma_resolve_environments_ok_prefix(envs: Seq<TurnEnvironmentParamsView>, j: int)
    requires
        0 <= j < envs.len(),
        spec_resolve_environments(envs) is Ok,
    ensures
        spec_resolve_environment(envs[j]) is Ok,
        spec_resolve_environments(envs)->Ok_0.len() == envs.len(),
        Ok::<TurnEnvironmentSelectionView, Seq<char>>(spec_resolve_environments(envs)->Ok_0[j])
            == spec_resolve_environment(envs[j]),
    decreases envs.len(),
{
    let rest = envs.drop_last();
    if j < envs.len() - 1 {
        lemma_resolve_environments_ok_prefix(rest, j);
        assert(rest[j] == envs[j]);
    } else if rest.len() > 0 {
        lemma_resolve_environments_ok_prefix(rest, 0);
    }
}

} // verus!

//! Shell resolution: which program a new terminal runs.

use crate::text::{opt_text, owned, texts};
use vstd::prelude::*;

verus! {

/// The family of the host operating system.
#[derive(Debug, Clone, Copy, PartialEq, Eq)]
pub enum Platform {
    Windows,
    Posix,
}

/// Why no shell could be chosen.
#[derive(Debug, Clone, Copy, PartialEq, Eq)]
pub enum ResolveError {
    /// The alternate shell was asked for and its launcher is not on the search path.
    NoAlternateShell,
    /// No candidate of the platform's list resolved.
    NoShellFound { platform: Platform },
}

/// A program to run in a new terminal.
#[derive(Debug, Clone, PartialEq, Eq)]
pub struct ShellLaunch {
    pub program: String,
    pub args: Vec<String>,
    pub label: String,
    pub supports_wsl: bool,
}

/// The mathematical value of a [`ShellLaunch`].
pub ghost struct ShellLaunchView {
    pub program: Seq<char>,
    pub args: Seq<Seq<char>>,
    pub label: Seq<char>,
    pub supports_wsl: bool,
}

impl View for ShellLaunch {
    type V = ShellLaunchView;

    open spec fn view(&self) -> ShellLaunchView {
        ShellLaunchView {
            program: self.program@,
            args: texts(self.args@),
            label: self.label@,
            supports_wsl: self.supports_wsl,
        }
    }
}

/// A candidate name and the program path that probing it gave, if any.
#[derive(Debug, Clone, PartialEq, Eq)]
pub struct Probe {
    pub candidate: String,
    pub found: Option<String>,
}

/// The mathematical value of a [`Probe`].
pub ghost struct ProbeView {
    pub candidate: Seq<char>,
    pub found: Option<Seq<char>>,
}

impl View for Probe {
    type V = ProbeView;

    open spec fn view(&self) -> ProbeView {
        ProbeView { candidate: self.candidate@, found: opt_text(self.found) }
    }
}

/// The values of a list of probes.
pub open spec fn probe_views(probes: Seq<Probe>) -> Seq<ProbeView> {
    Seq::new(probes.len(), |i: int| probes[i]@)
}

/// The final component of a path, as `std::path::Path::file_name` gives it
/// on the platform the crate is built for.
pub uninterp spec fn path_file_name(path: Seq<char>) -> Option<Seq<char>>;

/// Calls `which::which` and renders the path it found as text; `None`
/// where it reports an error. Whether anything is found depends on the
/// search path and the disk. The one claim: for a name that is not empty, a
/// path that is found is not empty either, since it is a directory joined
/// with the name and names a file that exists.
#[verifier::external_body]
fn find_on_path(name: &str) -> (found: Option<String>)
    ensures
        name@.len() > 0 ==> (found matches Some(path) ==> path@.len() > 0),
{
    match which::which(name) {
        Ok(path) => Some(path.to_string_lossy().into_owned()),
        Err(_) => None,
    }
}

/// Calls `std::path::Path::exists`. The answer depends on the disk, so
/// nothing is claimed of it.
#[verifier::external_body]
fn path_exists(path: &str) -> (exists: bool) {
    std::path::Path::new(path).exists()
}

/// Calls `std::path::Path::file_name` and renders the component as text.
/// The claim is only that the result is a function of the path's text,
/// named [`path_file_name`]; what that function gives is not stated.
#[verifier::external_body]
fn file_name_of(path: &str) -> (name: Option<String>)
    ensures
        opt_text(name) == path_file_name(path@),
{
    match std::path::Path::new(path).file_name() {
        Some(name) => Some(name.to_string_lossy().into_owned()),
        None => None,
    }
}

/// The launch of `program` without arguments, labelled `file_name` or, for
/// want of one, `fallback`.
pub open spec fn launch_of(
    program: Seq<char>,
    file_name: Option<Seq<char>>,
    fallback: Seq<char>,
    supports_wsl: bool,
) -> ShellLaunchView {
    ShellLaunchView {
        program,
        args: Seq::empty(),
        label: match file_name {
            Some(name) => name,
            None => fallback,
        },
        supports_wsl,
    }
}

/// Builds the launch of a program found for a candidate: no arguments, and
/// the label is the program's file name or, where it has none, the
/// candidate's own text.
pub fn shell_launch(
    program: String,
    file_name: Option<String>,
    fallback: &str,
    supports_wsl: bool,
) -> (launch: ShellLaunch)
    ensures
        launch@ == launch_of(program@, opt_text(file_name), fallback@, supports_wsl),
{
    let label = match file_name {
        Some(name) => name,
        None => owned(fallback),
    };
    let launch = ShellLaunch { program, args: Vec::new(), label, supports_wsl };
    assert(launch@.args =~= Seq::empty());
    launch
}

/// The place of the first probe at or after `from` that resolved.
pub open spec fn first_resolved(probes: Seq<ProbeView>, from: int) -> Option<int>
    decreases probes.len() - from,
{
    if from < 0 || from >= probes.len() {
        None
    } else if probes[from].found is Some {
        Some(from)
    } else {
        first_resolved(probes, from + 1)
    }
}

/// Whether any probe of the list resolved.
pub open spec fn some_found(probes: Seq<ProbeView>) -> bool {
    first_resolved(probes, 0) is Some
}

/// The path that the first resolved probe of the list found.
pub open spec fn first_found(probes: Seq<ProbeView>) -> Option<Seq<char>> {
    match first_resolved(probes, 0) {
        Some(i) => probes[i].found,
        None => None,
    }
}

/// The launch that the first resolved probe of the list gives.
pub open spec fn picked(probes: Seq<ProbeView>, supports_wsl: bool) -> Option<ShellLaunchView> {
    match first_resolved(probes, 0) {
        Some(i) => Some(
            launch_of(
                probes[i].found->0,
                path_file_name(probes[i].found->0),
                probes[i].candidate,
                supports_wsl,
            ),
        ),
        None => None,
    }
}

/// The value of an optional launch.
pub open spec fn opt_launch(launch: Option<ShellLaunch>) -> Option<ShellLaunchView> {
    match launch {
        Some(l) => Some(l@),
        None => None,
    }
}

/// Finds the first probe of the list that resolved.
pub fn first_resolved_at(probes: &Vec<Probe>) -> (place: Option<usize>)
    ensures
        match place {
            Some(i) => {
                &&& first_resolved(probe_views(probes@), 0) == Some(i as int)
                &&& i < probes.len()
                &&& probes[i as int].found is Some
            },
            None => first_resolved(probe_views(probes@), 0) is None,
        },
{
    let mut i: usize = 0;
    while i < probes.len()
        invariant
            i <= probes.len(),
            first_resolved(probe_views(probes@), 0) == first_resolved(
                probe_views(probes@),
                i as int,
            ),
        decreases probes.len() - i,
    {
        if probes[i].found.is_some() {
            return Some(i);
        }
        i += 1;
    }
    None
}

/// Chooses the first probe that resolved and builds its launch; `None` when
/// none resolved.
pub fn pick_shell(probes: &Vec<Probe>, supports_wsl: bool) -> (launch: Option<ShellLaunch>)
    ensures
        opt_launch(launch) == picked(probe_views(probes@), supports_wsl),
{
    match first_resolved_at(probes) {
        Some(i) => {
            match &probes[i].found {
                Some(program) => {
                    let name = file_name_of(program.as_str());
                    Some(
                        shell_launch(
                            program.clone(),
                            name,
                            probes[i].candidate.as_str(),
                            supports_wsl,
                        ),
                    )
                },
                None => None,
            }
        },
        None => None,
    }
}

/// The value of a resolution's outcome.
pub open spec fn outcome_view(outcome: Result<ShellLaunch, ResolveError>) -> Result<
    ShellLaunchView,
    ResolveError,
> {
    match outcome {
        Ok(launch) => Ok(launch@),
        Err(error) => Err(error),
    }
}

/// The outcome that a list of probes decides: the launch of the first that
/// resolved, or `missing` when none did.
pub open spec fn decided(probes: Seq<ProbeView>, supports_wsl: bool, missing: ResolveError) -> Result<
    ShellLaunchView,
    ResolveError,
> {
    match picked(probes, supports_wsl) {
        Some(launch) => Ok(launch),
        None => Err(missing),
    }
}

/// Whether `probes` are probes of exactly the candidates `names`, in order.
pub open spec fn probes_cover(names: Seq<Seq<char>>, probes: Seq<ProbeView>) -> bool {
    &&& probes.len() == names.len()
    &&& forall|i: int| 0 <= i < probes.len() ==> (#[trigger] probes[i]).candidate == names[i]
}

/// What holds of every lookup on the search path: for a candidate that is
/// not empty, a path that is found is not empty either.
pub open spec fn path_probe(probe: ProbeView) -> bool {
    probe.candidate.len() > 0 ==> (probe.found matches Some(path) ==> path.len() > 0)
}

/// Whether `probes` may be what looking `names` up on the search path gave.
pub open spec fn path_probes(names: Seq<Seq<char>>, probes: Seq<ProbeView>) -> bool {
    &&& probes_cover(names, probes)
    &&& forall|i: int| 0 <= i < probes.len() ==> path_probe(#[trigger] probes[i])
}

/// Whether a candidate is written as an absolute path.
pub open spec fn is_absolute(candidate: Seq<char>) -> bool {
    candidate.len() > 0 && candidate[0] == '/'
}

/// How a POSIX candidate is probed.
#[derive(Debug, Clone, Copy, PartialEq, Eq)]
pub enum CandidateKind {
    /// An empty candidate: it is not probed and never resolves.
    Skipped,
    /// An absolute path: it resolves to itself if it exists on disk.
    OnDisk,
    /// A bare name: it is looked up on the search path.
    OnSearchPath,
}

/// The kind of a POSIX candidate.
pub open spec fn kind_of(candidate: Seq<char>) -> CandidateKind {
    if candidate.len() == 0 {
        CandidateKind::Skipped
    } else if candidate[0] == '/' {
        CandidateKind::OnDisk
    } else {
        CandidateKind::OnSearchPath
    }
}

/// Says how a POSIX candidate is probed.
pub fn classify_candidate(candidate: &str) -> (kind: CandidateKind)
    ensures
        kind == kind_of(candidate@),
{
    if candidate.is_empty() {
        CandidateKind::Skipped
    } else if candidate.get_char(0) == '/' {
        CandidateKind::OnDisk
    } else {
        CandidateKind::OnSearchPath
    }
}

/// The probe of a candidate that was not looked for.
pub fn skipped_probe(candidate: String) -> (probe: Probe)
    ensures
        probe@ == (ProbeView { candidate: candidate@, found: None }),
{
    Probe { candidate, found: None }
}

/// The probe of an absolute path, given whether it exists on disk: a path
/// that exists resolves to itself, one that does not resolves to nothing.
pub fn disk_probe(candidate: String, exists: bool) -> (probe: Probe)
    ensures
        probe@ == (ProbeView {
            candidate: candidate@,
            found: if exists {
                Some(candidate@)
            } else {
                None
            },
        }),
{
    if exists {
        let found = Some(candidate.clone());
        Probe { candidate, found }
    } else {
        Probe { candidate, found: None }
    }
}

/// The probe of a bare name, given what the search path gave for it.
pub fn search_probe(candidate: String, found: Option<String>) -> (probe: Probe)
    ensures
        probe@ == (ProbeView { candidate: candidate@, found: opt_text(found) }),
{
    Probe { candidate, found }
}

/// What holds of every probe of a POSIX candidate: an empty candidate never
/// resolves, an absolute one resolves to itself or not at all, and a path
/// that is found is never empty.
pub open spec fn posix_probe(probe: ProbeView) -> bool {
    &&& kind_of(probe.candidate) == CandidateKind::Skipped ==> probe.found is None
    &&& kind_of(probe.candidate) == CandidateKind::OnDisk ==> (probe.found is None || probe.found
        == Some(probe.candidate))
    &&& probe.found matches Some(path) ==> path.len() > 0
}

/// The shells tried on a POSIX host after the user's own.
pub open spec fn posix_fallbacks() -> Seq<Seq<char>> {
    seq!["/bin/zsh"@, "/bin/bash"@, "/bin/sh"@]
}

/// The candidates of a POSIX host, in the order they are tried: the user's
/// configured shell, where the environment names one, then the fallbacks.
pub open spec fn posix_candidates(shell_env: Option<Seq<char>>) -> Seq<Seq<char>> {
    match shell_env {
        Some(shell) => seq![shell] + posix_fallbacks(),
        None => posix_fallbacks(),
    }
}

/// Whether `probes` may be what probing a POSIX host gave for `shell_env`.
pub open spec fn posix_probes(shell_env: Option<Seq<char>>, probes: Seq<ProbeView>) -> bool {
    &&& probes_cover(posix_candidates(shell_env), probes)
    &&& forall|i: int| 0 <= i < probes.len() ==> posix_probe(#[trigger] probes[i])
}

/// The PowerShell executables tried on a Windows host, in order.
pub open spec fn powershell_candidates() -> Seq<Seq<char>> {
    seq!["pwsh.exe"@, "pwsh"@, "powershell.exe"@, "powershell"@]
}

/// The names under which the alternate-shell launcher is looked for, in
/// order.
pub open spec fn launcher_names() -> Seq<Seq<char>> {
    seq!["wsl"@, "wsl.exe"@]
}

/// Lists the POSIX candidates in the order they are tried.
pub fn unix_candidates(shell_env: Option<String>) -> (names: Vec<String>)
    ensures
        texts(names@) == posix_candidates(opt_text(shell_env)),
{
    let mut names: Vec<String> = Vec::new();
    match shell_env {
        Some(shell) => {
            names.push(shell);
        },
        None => {},
    }
    names.push(owned("/bin/zsh"));
    names.push(owned("/bin/bash"));
    names.push(owned("/bin/sh"));
    assert(texts(names@) =~= posix_candidates(opt_text(shell_env)));
    names
}

/// Lists the PowerShell candidates in the order they are tried.
pub fn windows_candidates() -> (names: Vec<String>)
    ensures
        texts(names@) == powershell_candidates(),
{
    let mut names: Vec<String> = Vec::new();
    names.push(owned("pwsh.exe"));
    names.push(owned("pwsh"));
    names.push(owned("powershell.exe"));
    names.push(owned("powershell"));
    assert(texts(names@) =~= powershell_candidates());
    names
}

/// Lists the names of the alternate-shell launcher in the order they are
/// tried.
pub fn wsl_candidates() -> (names: Vec<String>)
    ensures
        texts(names@) == launcher_names(),
{
    let mut names: Vec<String> = Vec::new();
    names.push(owned("wsl"));
    names.push(owned("wsl.exe"));
    assert(texts(names@) =~= launcher_names());
    names
}

/// Probes one POSIX candidate: an empty one is skipped, an absolute path
/// must exist on disk, a bare name is looked up on the search path.
pub fn probe_unix_candidate(candidate: String) -> (probe: Probe)
    ensures
        probe@.candidate == candidate@,
        posix_probe(probe@),
{
    match classify_candidate(candidate.as_str()) {
        CandidateKind::Skipped => skipped_probe(candidate),
        CandidateKind::OnDisk => {
            let exists = path_exists(candidate.as_str());
            disk_probe(candidate, exists)
        },
        CandidateKind::OnSearchPath => {
            let found = find_on_path(candidate.as_str());
            search_probe(candidate, found)
        },
    }
}

/// Probes each POSIX candidate in turn.
pub fn probe_unix_candidates(names: &Vec<String>) -> (probes: Vec<Probe>)
    ensures
        probes_cover(texts(names@), probe_views(probes@)),
        forall|i: int| 0 <= i < probes.len() ==> posix_probe(#[trigger] probe_views(probes@)[i]),
{
    let mut probes: Vec<Probe> = Vec::new();
    let mut i: usize = 0;
    while i < names.len()
        invariant
            i <= names.len(),
            probes.len() == i,
            forall|j: int| 0 <= j < i ==> (#[trigger] probes[j])@.candidate == names[j]@,
            forall|j: int| 0 <= j < i ==> posix_probe((#[trigger] probes[j])@),
        decreases names.len() - i,
    {
        let probe = probe_unix_candidate(names[i].clone());
        probes.push(probe);
        i += 1;
    }
    probes
}

/// Looks each candidate up on the search path, in turn.
pub fn probe_path_candidates(names: &Vec<String>) -> (probes: Vec<Probe>)
    ensures
        path_probes(texts(names@), probe_views(probes@)),
{
    let mut probes: Vec<Probe> = Vec::new();
    let mut i: usize = 0;
    while i < names.len()
        invariant
            i <= names.len(),
            probes.len() == i,
            forall|j: int| 0 <= j < i ==> (#[trigger] probes[j])@.candidate == names[j]@,
            forall|j: int| 0 <= j < i ==> path_probe((#[trigger] probes[j])@),
        decreases names.len() - i,
    {
        let candidate = names[i].clone();
        let found = find_on_path(candidate.as_str());
        probes.push(search_probe(candidate, found));
        i += 1;
    }
    probes
}

/// Decides on the outcome of probing: the first probe that resolved gives the
/// launch, and `missing` is the error when none did.
pub fn decide_shell(probes: &Vec<Probe>, supports_wsl: bool, missing: ResolveError) -> (outcome:
    Result<ShellLaunch, ResolveError>)
    ensures
        outcome_view(outcome) == decided(probe_views(probes@), supports_wsl, missing),
{
    match pick_shell(probes, supports_wsl) {
        Some(launch) => Ok(launch),
        None => Err(missing),
    }
}

/// Whether `outcome` is one that resolution on a POSIX host may give for
/// `shell_env`: the one that some admissible list of probes decides.
pub open spec fn posix_outcome(
    shell_env: Option<Seq<char>>,
    outcome: Result<ShellLaunchView, ResolveError>,
) -> bool {
    exists|probes: Seq<ProbeView>|
        posix_probes(shell_env, probes) && outcome == #[trigger] decided(
            probes,
            false,
            ResolveError::NoShellFound { platform: Platform::Posix },
        )
}

/// Chooses the shell of a POSIX host. The user's configured shell comes
/// first, then `/bin/zsh`, `/bin/bash` and `/bin/sh`; the first candidate
/// that resolves is launched without arguments. Which candidates resolve is
/// for the host to say.
pub fn resolve_unix_shell(shell_env: Option<String>) -> (outcome: Result<ShellLaunch, ResolveError>)
    ensures
        posix_outcome(opt_text(shell_env), outcome_view(outcome)),
{
    let ghost env = opt_text(shell_env);
    let names = unix_candidates(shell_env);
    let probes = probe_unix_candidates(&names);
    let outcome = decide_shell(
        &probes,
        false,
        ResolveError::NoShellFound { platform: Platform::Posix },
    );
    assert(posix_probes(env, probe_views(probes@)));
    outcome
}

/// The launch of a POSIX shell through the alternate-shell launcher found at
/// `found`, or through the bare name `wsl` where the look found none.
pub open spec fn wsl_launch_of(found: Option<Seq<char>>) -> ShellLaunchView {
    ShellLaunchView {
        program: match found {
            Some(path) => path,
            None => "wsl"@,
        },
        args: seq!["-e"@, "bash"@],
        label: "wsl -e bash"@,
        supports_wsl: true,
    }
}

/// Builds the launch that runs `bash` through the alternate-shell launcher.
pub fn wsl_launch(found: Option<String>) -> (launch: ShellLaunch)
    ensures
        launch@ == wsl_launch_of(opt_text(found)),
{
    let program = match found {
        Some(path) => path,
        None => owned("wsl"),
    };
    let mut args: Vec<String> = Vec::new();
    args.push(owned("-e"));
    args.push(owned("bash"));
    let launch = ShellLaunch { program, args, label: owned("wsl -e bash"), supports_wsl: true };
    assert(launch@.args =~= seq!["-e"@, "bash"@]);
    launch
}

/// Looks for the alternate-shell launcher under its two names.
fn find_wsl() -> (look: Vec<Probe>)
    ensures
        path_probes(launcher_names(), probe_views(look@)),
{
    let names = wsl_candidates();
    probe_path_candidates(&names)
}

/// Says whether any probe of the list resolved.
pub fn any_found(probes: &Vec<Probe>) -> (found: bool)
    ensures
        found == some_found(probe_views(probes@)),
{
    first_resolved_at(probes).is_some()
}

/// The outcome that two looks for the alternate-shell launcher decide. The
/// first look says whether the host has the launcher at all: where it found
/// nothing, the alternate shell is missing. Otherwise the launch runs
/// through the first path that the second look found.
pub open spec fn alternate_decided(first_look: Seq<ProbeView>, second_look: Seq<ProbeView>) -> Result<
    ShellLaunchView,
    ResolveError,
> {
    if some_found(first_look) {
        Ok(wsl_launch_of(first_found(second_look)))
    } else {
        Err(ResolveError::NoAlternateShell)
    }
}

/// Decides on a request for the alternate shell, from two looks for its
/// launcher.
pub fn decide_alternate_shell(first_look: &Vec<Probe>, second_look: &Vec<Probe>) -> (outcome: Result<
    ShellLaunch,
    ResolveError,
>)
    ensures
        outcome_view(outcome) == alternate_decided(
            probe_views(first_look@),
            probe_views(second_look@),
        ),
{
    if !any_found(first_look) {
        return Err(ResolveError::NoAlternateShell);
    }
    let found = match first_resolved_at(second_look) {
        Some(i) => second_look[i].found.clone(),
        None => None,
    };
    Ok(wsl_launch(found))
}

/// Whether `outcome` is one that resolution on a Windows host may give.
/// With the alternate shell asked for, it is what two looks for the
/// launcher decide. Otherwise it is what some list of probes of the
/// PowerShell candidates decides, and the launch says whether a look for the
/// launcher found it.
pub open spec fn windows_outcome(use_wsl: bool, outcome: Result<ShellLaunchView, ResolveError>) -> bool {
    if use_wsl {
        exists|first_look: Seq<ProbeView>, second_look: Seq<ProbeView>|
            path_probes(launcher_names(), first_look) && path_probes(
                launcher_names(),
                second_look,
            ) && outcome == #[trigger] alternate_decided(first_look, second_look)
    } else {
        exists|look: Seq<ProbeView>, probes: Seq<ProbeView>|
            path_probes(launcher_names(), look) && path_probes(powershell_candidates(), probes)
                && outcome == #[trigger] decided(
                probes,
                some_found(look),
                ResolveError::NoShellFound { platform: Platform::Windows },
            )
    }
}

/// Chooses the shell of a Windows host. With `use_wsl` the alternate-shell
/// launcher must be on the search path; without it the PowerShell candidates
/// are tried in order and the first found is launched without arguments.
pub fn resolve_windows_shell(use_wsl: bool) -> (outcome: Result<ShellLaunch, ResolveError>)
    ensures
        windows_outcome(use_wsl, outcome_view(outcome)),
{
    let first_look = find_wsl();
    if use_wsl {
        let second_look = find_wsl();
        let outcome = decide_alternate_shell(&first_look, &second_look);
        assert(outcome_view(outcome) == alternate_decided(
            probe_views(first_look@),
            probe_views(second_look@),
        ));
        return outcome;
    }
    let supports_wsl = any_found(&first_look);
    let names = windows_candidates();
    let probes = probe_path_candidates(&names);
    let outcome = decide_shell(
        &probes,
        supports_wsl,
        ResolveError::NoShellFound { platform: Platform::Windows },
    );
    assert(outcome_view(outcome) == decided(
        probe_views(probes@),
        some_found(probe_views(first_look@)),
        ResolveError::NoShellFound { platform: Platform::Windows },
    ));
    outcome
}

/// Chooses the shell for a new terminal on `platform`. `shell_env` is the
/// user's configured shell as the environment names it; only a POSIX host
/// reads it, and only a Windows host reads `use_wsl`.
pub fn resolve_shell(platform: Platform, use_wsl: bool, shell_env: Option<String>) -> (outcome:
    Result<ShellLaunch, ResolveError>)
    ensures
        platform == Platform::Windows ==> windows_outcome(use_wsl, outcome_view(outcome)),
        platform == Platform::Posix ==> posix_outcome(opt_text(shell_env), outcome_view(outcome)),
{
    match platform {
        Platform::Windows => resolve_windows_shell(use_wsl),
        Platform::Posix => resolve_unix_shell(shell_env),
    }
}

impl ResolveError {
    /// The text of the error as a caller reads it.
    pub open spec fn message_text(self) -> Seq<char> {
        match self {
            ResolveError::NoAlternateShell => "WSL requested but no wsl executable was found"@,
            ResolveError::NoShellFound { platform: Platform::Windows } =>
                "No PowerShell executable found. Install pwsh or powershell, or enable WSL."@,
            ResolveError::NoShellFound { platform: Platform::Posix } =>
                "No suitable shell found (checked SHELL, zsh, bash, sh)."@,
        }
    }

    /// Renders the error.
    pub fn message(&self) -> (text: String)
        ensures
            text@ == self.message_text(),
    {
        match self {
            ResolveError::NoAlternateShell => owned(
                "WSL requested but no wsl executable was found",
            ),
            ResolveError::NoShellFound { platform: Platform::Windows } => owned(
                "No PowerShell executable found. Install pwsh or powershell, or enable WSL.",
            ),
            ResolveError::NoShellFound { platform: Platform::Posix } => owned(
                "No suitable shell found (checked SHELL, zsh, bash, sh).",
            ),
        }
    }
}

/// The first resolved probe is the first: every probe before it found
/// nothing, and where none resolved there is no first.
pub proof fn first_resolved_is_first(probes: Seq<ProbeView>, from: int)
    requires
        0 <= from,
    ensures
        match first_resolved(probes, from) {
            Some(i) => {
                &&& from <= i < probes.len()
                &&& probes[i].found is Some
                &&& forall|j: int| from <= j < i ==> (#[trigger] probes[j]).found is None
            },
            None => forall|i: int| from <= i < probes.len() ==> (#[trigger] probes[i]).found is None,
        },
    decreases probes.len() - from,
{
    if from < probes.len() && probes[from].found is None {
        first_resolved_is_first(probes, from + 1);
    }
}

/// Resolution fails if and only if no candidate resolved, and then with the
/// error of its branch.
pub proof fn resolution_fails_iff_nothing_found(
    probes: Seq<ProbeView>,
    supports_wsl: bool,
    missing: ResolveError,
)
    ensures
        decided(probes, supports_wsl, missing) is Err <==> forall|i: int|
            0 <= i < probes.len() ==> (#[trigger] probes[i]).found is None,
        decided(probes, supports_wsl, missing) is Err ==> decided(probes, supports_wsl, missing)
            == Err::<ShellLaunchView, ResolveError>(missing),
{
    first_resolved_is_first(probes, 0);
}

/// A request for the alternate shell fails if and only if the first look
/// for its launcher found nothing under either name, and then for want of
/// the alternate shell: other shells on the search path do not stand in.
pub proof fn alternate_fails_iff_no_launcher(first_look: Seq<ProbeView>, second_look: Seq<ProbeView>)
    ensures
        alternate_decided(first_look, second_look) is Err <==> forall|i: int|
            0 <= i < first_look.len() ==> (#[trigger] first_look[i]).found is None,
        alternate_decided(first_look, second_look) is Err ==> alternate_decided(
            first_look,
            second_look,
        ) == Err::<ShellLaunchView, ResolveError>(ResolveError::NoAlternateShell),
{
    first_resolved_is_first(first_look, 0);
}

/// Where the environment names an absolute path that exists, that path is
/// the program launched.
pub proof fn configured_shell_is_launched(shell: Seq<char>, probes: Seq<ProbeView>)
    requires
        posix_probes(Some(shell), probes),
        is_absolute(shell),
        probes[0].found is Some,
    ensures
        decided(probes, false, ResolveError::NoShellFound { platform: Platform::Posix }) matches Ok(
            launch,
        ) && launch.program == shell,
{
    assert(posix_candidates(Some(shell))[0] == shell);
    assert(posix_probe(probes[0]));
}

/// Where no candidate resolves, resolution on a POSIX host fails for want of
/// a shell.
pub proof fn no_shell_found(shell_env: Option<Seq<char>>, probes: Seq<ProbeView>)
    requires
        posix_probes(shell_env, probes),
        forall|i: int| 0 <= i < probes.len() ==> (#[trigger] probes[i]).found is None,
    ensures
        decided(probes, false, ResolveError::NoShellFound { platform: Platform::Posix }) == Err::<
            ShellLaunchView,
            ResolveError,
        >(ResolveError::NoShellFound { platform: Platform::Posix }),
{
    first_resolved_is_first(probes, 0);
}

/// A shell that resolution on a POSIX host launches has a program.
pub proof fn posix_launch_has_a_program(
    shell_env: Option<Seq<char>>,
    outcome: Result<ShellLaunchView, ResolveError>,
)
    requires
        posix_outcome(shell_env, outcome),
    ensures
        outcome matches Ok(launch) ==> launch.program.len() > 0,
{
    let probes = choose|probes: Seq<ProbeView>|
        posix_probes(shell_env, probes) && outcome == #[trigger] decided(
            probes,
            false,
            ResolveError::NoShellFound { platform: Platform::Posix },
        );
    first_resolved_is_first(probes, 0);
    if first_resolved(probes, 0) is Some {
            let i = first_resolved(probes, 0)->0;
        assert(posix_probe(probes[i]));
    }
}

/// A shell that resolution on a Windows host launches has a program.
pub proof fn windows_launch_has_a_program(
    use_wsl: bool,
    outcome: Result<ShellLaunchView, ResolveError>,
)
    requires
        windows_outcome(use_wsl, outcome),
    ensures
        outcome matches Ok(launch) ==> launch.program.len() > 0,
{
    reveal_strlit("wsl");
    reveal_strlit("wsl.exe");
    reveal_strlit("pwsh.exe");
    reveal_strlit("pwsh");
    reveal_strlit("powershell.exe");
    reveal_strlit("powershell");
    if use_wsl {
        let (first_look, second_look) = choose|first_look: Seq<ProbeView>, second_look: Seq<ProbeView>|
            path_probes(launcher_names(), first_look) && path_probes(
                launcher_names(),
                second_look,
            ) && outcome == #[trigger] alternate_decided(first_look, second_look);
        first_resolved_is_first(second_look, 0);
        if first_resolved(second_look, 0) is Some {
            let i = first_resolved(second_look, 0)->0;
            assert(path_probe(second_look[i]));
            assert(second_look[i].candidate == launcher_names()[i]);
        }
    } else {
        let (look, probes) = choose|look: Seq<ProbeView>, probes: Seq<ProbeView>|
            path_probes(launcher_names(), look) && path_probes(powershell_candidates(), probes)
                && outcome == #[trigger] decided(
                probes,
                some_found(look),
                ResolveError::NoShellFound { platform: Platform::Windows },
            );
        first_resolved_is_first(probes, 0);
        if first_resolved(probes, 0) is Some {
            let i = first_resolved(probes, 0)->0;
            assert(path_probe(probes[i]));
            assert(probes[i].candidate == powershell_candidates()[i]);
        }
    }
}

} // verus!

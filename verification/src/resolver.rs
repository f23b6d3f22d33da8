//! Locating an external tool.
//!
//! A development build first asks the system's search path, so that a
//! locally installed tool is used. Every build then falls back to the copies
//! bundled with the application, tried in a fixed order. The host does the
//! probing; this module decides what to probe next and when to stop.

use crate::process::{Invocation, InvocationView, ProcessOutcome, ProcessOutcomeView};
use crate::text::{decode_lossy, join, lossy_text, trim, trimmed};
use vstd::prelude::*;
use vstd::string::StringExecFns;

verus! {

/// What the resolver is about to do. The host performs the step that the
/// state names and reports back with the matching [`ResolverEvent`].
#[derive(Debug, Clone, PartialEq, Eq)]
pub enum ResolverState {
    /// Ask the system's search path for the tool.
    ProbeSystem,
    /// Ask for the directory that holds the bundled resources.
    LocateResources,
    /// Check whether the candidate numbered `index` exists below
    /// `resource_dir`.
    CheckCandidate { resource_dir: String, index: u8 },
    /// Resolution is over: the tool is at this path.
    Resolved(String),
    /// Resolution is over: the tool was not found, for this reason.
    Failed(String),
}

/// Mathematical content of a [`ResolverState`].
pub enum ResolverStateView {
    ProbeSystem,
    LocateResources,
    CheckCandidate { resource_dir: Seq<char>, index: u8 },
    Resolved(Seq<char>),
    Failed(Seq<char>),
}

impl View for ResolverState {
    type V = ResolverStateView;

    open spec fn view(&self) -> ResolverStateView {
        match self {
            ResolverState::ProbeSystem => ResolverStateView::ProbeSystem,
            ResolverState::LocateResources => ResolverStateView::LocateResources,
            ResolverState::CheckCandidate { resource_dir, index } => {
                ResolverStateView::CheckCandidate { resource_dir: resource_dir@, index: *index }
            },
            ResolverState::Resolved(path) => ResolverStateView::Resolved(path@),
            ResolverState::Failed(message) => ResolverStateView::Failed(message@),
        }
    }
}

/// What the host found when it performed a step.
#[derive(Debug, Clone, PartialEq, Eq)]
pub enum ResolverEvent {
    /// Outcome of the search-path query.
    SystemProbed(ProcessOutcome),
    /// The resource directory.
    ResourcesLocated(String),
    /// The resource directory could not be determined, for this reason.
    ResourcesUnavailable(String),
    /// The full path of the candidate that was checked, and whether a file
    /// exists there.
    CandidateChecked { path: String, exists: bool },
}

/// Mathematical content of a [`ResolverEvent`].
pub enum ResolverEventView {
    SystemProbed(ProcessOutcomeView),
    ResourcesLocated(Seq<char>),
    ResourcesUnavailable(Seq<char>),
    CandidateChecked { path: Seq<char>, exists: bool },
}

impl View for ResolverEvent {
    type V = ResolverEventView;

    open spec fn view(&self) -> ResolverEventView {
        match self {
            ResolverEvent::SystemProbed(outcome) => ResolverEventView::SystemProbed(outcome@),
            ResolverEvent::ResourcesLocated(dir) => ResolverEventView::ResourcesLocated(dir@),
            ResolverEvent::ResourcesUnavailable(reason) => {
                ResolverEventView::ResourcesUnavailable(reason@)
            },
            ResolverEvent::CandidateChecked { path, exists } => {
                ResolverEventView::CandidateChecked { path: path@, exists: *exists }
            },
        }
    }
}

/// Number of the last bundled candidate.
pub const LAST_CANDIDATE: u8 = 2;

/// The state in which resolution starts: a development build looks at the
/// system first, any other build goes straight to the bundled copies.
pub open spec fn initial_state(development: bool) -> ResolverStateView {
    if development {
        ResolverStateView::ProbeSystem
    } else {
        ResolverStateView::LocateResources
    }
}

/// The location of candidate `index`, relative to the resource directory:
/// the `binaries` subdirectory, the directory itself, and a legacy location
/// beside it.
pub open spec fn candidate_location(name: Seq<char>, index: u8) -> Seq<char> {
    if index == 0 {
        "binaries/"@ + name
    } else if index == 1 {
        name
    } else {
        "../Resources/binaries/"@ + name
    }
}

/// The path that a search-path query reports, if it reports one: the query
/// succeeded and printed more than white space.
pub open spec fn system_path(outcome: ProcessOutcomeView) -> Option<Seq<char>> {
    match outcome {
        ProcessOutcomeView::Exited(output) => if output.success && trimmed(
            lossy_text(output.stdout),
        ).len() > 0 {
            Some(trimmed(lossy_text(output.stdout)))
        } else {
            None
        },
        ProcessOutcomeView::LaunchFailed(_) => None,
    }
}

/// The diagnostic for a tool that is in none of the bundled locations.
pub open spec fn not_found_message(name: Seq<char>, resource_dir: Seq<char>) -> Seq<char> {
    name + " binary not found in resource directory: "@ + resource_dir
        + ". Please ensure it's bundled with the app."@
}

/// The resolver's transition: the state that follows `state` once the host
/// reports `event`. An event that does not answer the step that `state`
/// names leaves the state as it is.
pub open spec fn resolver_step(
    name: Seq<char>,
    state: ResolverStateView,
    event: ResolverEventView,
) -> ResolverStateView {
    match (state, event) {
        (ResolverStateView::ProbeSystem, ResolverEventView::SystemProbed(outcome)) => {
            match system_path(outcome) {
                Some(path) => ResolverStateView::Resolved(path),
                None => ResolverStateView::LocateResources,
            }
        },
        (ResolverStateView::LocateResources, ResolverEventView::ResourcesLocated(dir)) => {
            ResolverStateView::CheckCandidate { resource_dir: dir, index: 0 }
        },
        (ResolverStateView::LocateResources, ResolverEventView::ResourcesUnavailable(reason)) => {
            ResolverStateView::Failed("Failed to get resource dir: "@ + reason)
        },
        (
            ResolverStateView::CheckCandidate { resource_dir, index },
            ResolverEventView::CandidateChecked { path, exists },
        ) => {
            if exists {
                ResolverStateView::Resolved(path)
            } else if index < LAST_CANDIDATE {
                ResolverStateView::CheckCandidate { resource_dir, index: (index + 1) as u8 }
            } else {
                ResolverStateView::Failed(not_found_message(name, resource_dir))
            }
        },
        _ => state,
    }
}

/// The query that asks the system's search path for the tool `name`.
pub open spec fn system_probe_of(name: Seq<char>) -> InvocationView {
    InvocationView { program: "which"@, args: seq![name] }
}

/// The query that asks the system's search path for the tool `name`.
pub fn system_probe(name: &str) -> (query: Invocation)
    ensures
        query@ == system_probe_of(name@),
{
    let mut args: Vec<String> = Vec::new();
    args.push(String::from_str(name));
    assert(args.deep_view() =~= seq![name@]);
    Invocation { program: String::from_str("which"), args }
}

impl ResolverState {
    /// Starts a resolution.
    pub fn start(development: bool) -> (state: ResolverState)
        ensures
            state@ == initial_state(development),
    {
        if development {
            ResolverState::ProbeSystem
        } else {
            ResolverState::LocateResources
        }
    }
}

/// The location of bundled candidate `index` for the tool `name`, relative
/// to the resource directory.
pub fn candidate_path(name: &str, index: u8) -> (location: String)
    ensures
        location@ == candidate_location(name@, index),
{
    if index == 0 {
        join("binaries/", name)
    } else if index == 1 {
        String::from_str(name)
    } else {
        join("../Resources/binaries/", name)
    }
}

fn reported_path(outcome: &ProcessOutcome) -> (path: Option<String>)
    ensures
        path.deep_view() == system_path(outcome@),
{
    match outcome {
        ProcessOutcome::Exited(output) => {
            if output.success {
                let text = decode_lossy(output.stdout.as_slice());
                let path = trim(text.as_str());
                if !path.as_str().is_empty() {
                    return Some(path);
                }
            }
            None
        },
        ProcessOutcome::LaunchFailed(_) => None,
    }
}

fn not_found(name: &str, resource_dir: &str) -> (message: String)
    ensures
        message@ == not_found_message(name@, resource_dir@),
{
    let mut message = String::from_str(name);
    message.append(" binary not found in resource directory: ");
    message.append(resource_dir);
    message.append(". Please ensure it's bundled with the app.");
    message
}

/// Advances the resolution of the tool `name` by one step: takes the state
/// that the host acted on and what the host found, and gives the next state.
pub fn get_binary_path(name: &str, state: ResolverState, event: &ResolverEvent) -> (next:
    ResolverState)
    ensures
        next@ == resolver_step(name@, state@, event@),
{
    match state {
        ResolverState::ProbeSystem => match event {
            ResolverEvent::SystemProbed(outcome) => match reported_path(outcome) {
                Some(path) => ResolverState::Resolved(path),
                None => ResolverState::LocateResources,
            },
            _ => ResolverState::ProbeSystem,
        },
        ResolverState::LocateResources => match event {
            ResolverEvent::ResourcesLocated(dir) => ResolverState::CheckCandidate {
                resource_dir: dir.clone(),
                index: 0,
            },
            ResolverEvent::ResourcesUnavailable(reason) => ResolverState::Failed(
                join("Failed to get resource dir: ", reason.as_str()),
            ),
            _ => ResolverState::LocateResources,
        },
        ResolverState::CheckCandidate { resource_dir, index } => match event {
            ResolverEvent::CandidateChecked { path, exists } => {
                if *exists {
                    ResolverState::Resolved(path.clone())
                } else if index < LAST_CANDIDATE {
                    ResolverState::CheckCandidate { resource_dir, index: index + 1 }
                } else {
                    ResolverState::Failed(not_found(name, resource_dir.as_str()))
                }
            },
            _ => ResolverState::CheckCandidate { resource_dir, index },
        },
        ResolverState::Resolved(path) => ResolverState::Resolved(path),
        ResolverState::Failed(message) => ResolverState::Failed(message),
    }
}

/// What a host would find on one machine at one moment: the answer of the
/// search path, the resource directory, how a location below a directory is
/// written as a path, and which paths exist.
pub struct Installation {
    pub system_probe: ProcessOutcomeView,
    pub resources: Result<Seq<char>, Seq<char>>,
    pub path_below: spec_fn(Seq<char>, Seq<char>) -> Seq<char>,
    pub present: Set<Seq<char>>,
}

impl Installation {
    /// The full path of candidate `index` below `resource_dir`.
    pub open spec fn candidate(self, name: Seq<char>, resource_dir: Seq<char>, index: u8) -> Seq<
        char,
    > {
        (self.path_below)(resource_dir, candidate_location(name, index))
    }

    /// What a host reports when it performs the step that `state` names.
    pub open spec fn observe(self, name: Seq<char>, state: ResolverStateView) -> ResolverEventView {
        match state {
            ResolverStateView::LocateResources => match self.resources {
                Ok(dir) => ResolverEventView::ResourcesLocated(dir),
                Err(reason) => ResolverEventView::ResourcesUnavailable(reason),
            },
            ResolverStateView::CheckCandidate { resource_dir, index } => {
                ResolverEventView::CandidateChecked {
                    path: self.candidate(name, resource_dir, index),
                    exists: self.present.contains(self.candidate(name, resource_dir, index)),
                }
            },
            _ => ResolverEventView::SystemProbed(self.system_probe),
        }
    }

    /// The state reached from `state` after `steps` rounds of the host
    /// performing the step and the resolver taking the report.
    pub open spec fn run(self, name: Seq<char>, state: ResolverStateView, steps: nat)
        -> ResolverStateView
        decreases steps,
    {
        if steps == 0 {
            state
        } else {
            self.run(
                name,
                resolver_step(name, state, self.observe(name, state)),
                (steps - 1) as nat,
            )
        }
    }

    /// The bundled copy of the tool: the first of the three candidates that
    /// exists.
    pub open spec fn bundled(self, name: Seq<char>) -> ResolverStateView {
        match self.resources {
            Err(reason) => ResolverStateView::Failed("Failed to get resource dir: "@ + reason),
            Ok(dir) => if self.present.contains(self.candidate(name, dir, 0)) {
                ResolverStateView::Resolved(self.candidate(name, dir, 0))
            } else if self.present.contains(self.candidate(name, dir, 1)) {
                ResolverStateView::Resolved(self.candidate(name, dir, 1))
            } else if self.present.contains(self.candidate(name, dir, 2)) {
                ResolverStateView::Resolved(self.candidate(name, dir, 2))
            } else {
                ResolverStateView::Failed(not_found_message(name, dir))
            },
        }
    }

    /// Where the tool is: in a development build the path that the search
    /// path reports, if it reports one; otherwise the bundled copy.
    pub open spec fn resolution(self, name: Seq<char>, development: bool) -> ResolverStateView {
        if development && system_path(self.system_probe) is Some {
            ResolverStateView::Resolved(system_path(self.system_probe)->Some_0)
        } else {
            self.bundled(name)
        }
    }
}

/// Driven by a host that reports what it finds, the resolver reaches its
/// verdict within five steps and stays there, and the verdict is the
/// resolution of the installation.
pub proof fn lemma_resolver_reaches_resolution(
    world: Installation,
    name: Seq<char>,
    development: bool,
    steps: nat,
)
    requires
        steps >= 5,
    ensures
        world.run(name, initial_state(development), steps) == world.resolution(name, development),
        world.resolution(name, development) is Resolved || world.resolution(name, development)
            is Failed,
{
    let s0 = initial_state(development);
    let s1 = resolver_step(name, s0, world.observe(name, s0));
    let s2 = resolver_step(name, s1, world.observe(name, s1));
    let s3 = resolver_step(name, s2, world.observe(name, s2));
    let s4 = resolver_step(name, s3, world.observe(name, s3));
    let s5 = resolver_step(name, s4, world.observe(name, s4));
    assert(s5 == world.resolution(name, development));
    assert(world.run(name, s0, steps) == world.run(name, s5, (steps - 5) as nat)) by {
        reveal_with_fuel(Installation::run, 6);
    }
    lemma_verdict_is_final(world, name, s5, (steps - 5) as nat);
}

/// Once resolution is over, further reports change nothing.
pub proof fn lemma_verdict_is_final(
    world: Installation,
    name: Seq<char>,
    state: ResolverStateView,
    steps: nat,
)
    requires
        state is Resolved || state is Failed,
    ensures
        world.run(name, state, steps) == state,
    decreases steps,
{
    if steps > 0 {
        lemma_verdict_is_final(world, name, state, (steps - 1) as nat);
    }
}

/// A development build prefers the system's copy: where the search path
/// reports a tool, that path is the resolution, whatever is bundled.
pub proof fn lemma_development_prefers_system(world: Installation, name: Seq<char>)
    requires
        system_path(world.system_probe) is Some,
    ensures
        world.resolution(name, true) == ResolverStateView::Resolved(
            system_path(world.system_probe)->Some_0,
        ),
{
}

/// Any other build considers the bundled copies only: the resolver never
/// asks the search path, and two installations that differ in nothing but
/// the search path's answer resolve alike.
pub proof fn lemma_packaged_ignores_system(
    world: Installation,
    other: Installation,
    name: Seq<char>,
    steps: nat,
)
    requires
        other == (Installation { system_probe: other.system_probe, ..world }),
    ensures
        !(world.run(name, initial_state(false), steps) is ProbeSystem),
        world.resolution(name, false) == world.bundled(name),
        world.resolution(name, false) == other.resolution(name, false),
{
    lemma_never_probes_again(world, name, initial_state(false), steps);
}

/// From a state other than the search-path query, the resolver never comes
/// to that query.
proof fn lemma_never_probes_again(
    world: Installation,
    name: Seq<char>,
    state: ResolverStateView,
    steps: nat,
)
    requires
        !(state is ProbeSystem),
    ensures
        !(world.run(name, state, steps) is ProbeSystem),
    decreases steps,
{
    if steps > 0 {
        lemma_never_probes_again(
            world,
            name,
            resolver_step(name, state, world.observe(name, state)),
            (steps - 1) as nat,
        );
    }
}

} // verus!

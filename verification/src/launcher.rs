//! Turning a launch spec into a running child.
//!
//! The library decides; the operating system is reached through a spawn hook
//! that the caller hands in. A hook receives a [`SpawnRequest`] and reports a
//! [`SpawnOutcome`]; it is never invoked for a spec without a command.

use crate::config::{BackendLaunchSpec, LaunchSpecView};
use crate::notice::{notice_views, Notice, NoticeView};
use crate::platform::{Containment, Platform};
use crate::texts::clone_texts;
use vstd::prelude::*;

verus! {

/// Where the output and error streams of a spawned process go.
#[derive(Clone, Copy, Debug, PartialEq, Eq, Structural)]
pub enum OutputStreams {
    /// To the supervisor's own streams, unread and unbuffered.
    Inherited,
    /// Into pipes that the spawning side reads.
    Captured,
}

/// What the spawn hook is asked to do: start `spec.command` with
/// `spec.arguments`, connect its output and error streams as `output` says,
/// and then apply `containment`.
#[derive(Debug, PartialEq, Eq)]
pub struct SpawnRequest {
    pub spec: BackendLaunchSpec,
    pub output: OutputStreams,
    pub containment: Containment,
}

/// The mathematical content of a [`SpawnRequest`].
pub struct SpawnRequestView {
    pub spec: LaunchSpecView,
    pub output: OutputStreams,
    pub containment: Containment,
}

impl View for SpawnRequest {
    type V = SpawnRequestView;

    open spec fn view(&self) -> SpawnRequestView {
        SpawnRequestView { spec: self.spec@, output: self.output, containment: self.containment }
    }
}

/// What a launch spec calls for.
#[derive(Debug, PartialEq, Eq)]
pub enum LaunchPlan {
    /// The command is empty: nothing is spawned.
    Skip,
    /// The command is to be spawned as the request says.
    Spawn(SpawnRequest),
}

/// The request that a spec with a command calls for on `platform`: the spec
/// as it is, the child's output left on the supervisor's streams, and the
/// containment of the platform.
pub open spec fn requested(spec: LaunchSpecView, platform: Platform) -> SpawnRequestView {
    SpawnRequestView {
        spec,
        output: OutputStreams::Inherited,
        containment: platform.spec_containment(),
    }
}

/// The notice that announces a spawn.
pub open spec fn starting_notice(spec: LaunchSpecView) -> NoticeView {
    NoticeView::Starting { command: spec.command, arguments: spec.arguments }
}

/// How the containment asked for in a request turned out.
#[derive(Clone, Copy, Debug, PartialEq, Eq, Structural)]
pub enum ContainmentStatus {
    /// The request asked for none.
    NotRequested,
    /// The child was assigned to its job object.
    Established,
    /// The job object could not be created or the child not assigned to it.
    Failed,
}

/// What the spawn hook reports.
pub enum SpawnOutcome<H> {
    /// The child runs; `handle` refers to it.
    Started { handle: H, containment: ContainmentStatus },
    /// The operating system refused to spawn the child.
    Failed { cause: String },
}

impl<H> SpawnOutcome<H> {
    /// The handle of the child, where one was started. How containment
    /// turned out has no part in it.
    pub open spec fn handle(self) -> Option<H> {
        match self {
            SpawnOutcome::Started { handle, .. } => Some(handle),
            SpawnOutcome::Failed { .. } => None,
        }
    }

    /// The notices that report the outcome.
    pub open spec fn notices(self) -> Seq<NoticeView> {
        match self {
            SpawnOutcome::Started { containment: ContainmentStatus::Failed, .. } => seq![
                NoticeView::Started,
                NoticeView::ContainmentFailed,
            ],
            SpawnOutcome::Started { .. } => seq![NoticeView::Started],
            SpawnOutcome::Failed { cause } => seq![NoticeView::SpawnFailed { cause: cause@ }],
        }
    }
}

/// What came of a launch: the handle of the child, if one runs, and the
/// notices for the operator. A launch has no other way to fail.
pub struct LaunchReport<H> {
    pub handle: Option<H>,
    pub notices: Vec<Notice>,
}

/// Decides whether `spec` is to be spawned, and how.
pub fn plan_launch(spec: BackendLaunchSpec, platform: Platform) -> (plan: LaunchPlan)
    ensures
        match plan {
            LaunchPlan::Skip => !spec@.has_command(),
            LaunchPlan::Spawn(request) => spec@.has_command() && request@ == requested(
                spec@,
                platform,
            ),
        },
{
    if spec.has_command() {
        LaunchPlan::Spawn(
            SpawnRequest {
                spec,
                output: OutputStreams::Inherited,
                containment: platform.containment(),
            },
        )
    } else {
        LaunchPlan::Skip
    }
}

/// Turns what the spawn hook reported into the result of the launch.
pub fn conclude_launch<H>(outcome: SpawnOutcome<H>) -> (report: LaunchReport<H>)
    ensures
        report.handle == outcome.handle(),
        notice_views(report.notices@) == outcome.notices(),
{
    let mut notices: Vec<Notice> = Vec::new();
    match outcome {
        SpawnOutcome::Started { handle, containment } => {
            notices.push(Notice::Started);
            match containment {
                ContainmentStatus::Failed => {
                    notices.push(Notice::ContainmentFailed);
                },
                _ => {},
            }
            LaunchReport { handle: Some(handle), notices }
        },
        SpawnOutcome::Failed { cause } => {
            notices.push(Notice::SpawnFailed { cause });
            LaunchReport { handle: None, notices }
        },
    }
}

/// Launches the backend that `spec` describes.
///
/// With an empty command nothing is spawned: the hook is owed nothing in that
/// case, so it cannot be invoked. Otherwise the hook is invoked once, with the
/// request that `spec` calls for on `platform`, and its outcome decides the
/// report.
pub fn launch<H, F>(spec: BackendLaunchSpec, platform: Platform, spawn: F) -> (report: LaunchReport<H>)
    where F: FnOnce(SpawnRequest) -> SpawnOutcome<H>
    requires
        spec@.has_command() ==> forall|request: SpawnRequest|
            request@ == requested(spec@, platform) ==> spawn.requires((request,)),
    ensures
        !spec@.has_command() ==> report.handle is None && notice_views(report.notices@)
            == seq![NoticeView::CommandEmpty],
        spec@.has_command() ==> exists|request: SpawnRequest, outcome: SpawnOutcome<H>|
            request@ == requested(spec@, platform) && spawn.ensures((request,), outcome)
                && report.handle == outcome.handle() && notice_views(report.notices@)
                == seq![starting_notice(spec@)] + outcome.notices(),
{
    match plan_launch(spec, platform) {
        LaunchPlan::Skip => {
            let mut notices: Vec<Notice> = Vec::new();
            notices.push(Notice::CommandEmpty);
            LaunchReport { handle: None, notices }
        },
        LaunchPlan::Spawn(request) => {
            let mut notices: Vec<Notice> = Vec::new();
            notices.push(
                Notice::Starting {
                    command: request.spec.command().to_owned(),
                    arguments: clone_texts(request.spec.arguments()),
                },
            );
            let outcome = spawn(request);
            let mut concluded = conclude_launch(outcome);
            notices.append(&mut concluded.notices);
            LaunchReport { handle: concluded.handle, notices }
        },
    }
}

} // verus!

//! The supervisor as the host application sees it: two hooks, one for the
//! end of setup and one for the request to exit, around one tracked child.

use crate::config::{accounts_for, optional_notice_view, resolve, resolved_spec, ConfigRead};
use crate::launcher::{
    launch, requested, starting_notice, OutputStreams, SpawnOutcome, SpawnRequest,
};
use crate::notice::{notice_views, Notice, NoticeView};
use crate::platform::Platform;
use crate::reaper::{on_exit, termination_notice};
use crate::registry::LifecycleRegistry;
use vstd::prelude::*;

verus! {

/// Where the tracked child stands, as far as the supervisor can know.
///
/// A child that dies on its own stays `Running` here: the supervisor does not
/// watch it between spawn and exit.
#[derive(Clone, Copy, Debug, PartialEq, Eq, Structural)]
pub enum ChildState {
    /// No child is tracked: none was started yet, or the last launch started
    /// none.
    NotStarted,
    /// Setup is under way and the spawn hook has not returned.
    Spawning,
    /// A child was started and its handle is held.
    Running,
    /// The child was handed to the terminate hook at exit.
    Reaped,
}

/// The supervisor of one backend process, with handles of type `H`.
pub struct Supervisor<H> {
    registry: LifecycleRegistry<H>,
    state: ChildState,
}

/// The notices of `first`, if there is one, and then those of `rest`.
pub open spec fn led_by(first: Option<NoticeView>, rest: Seq<NoticeView>) -> Seq<NoticeView> {
    match first {
        Some(notice) => seq![notice] + rest,
        None => rest,
    }
}

/// The state that a finished setup leaves: `Running` with a handle, and
/// `NotStarted` without one.
pub open spec fn state_after_setup<H>(handle: Option<H>) -> ChildState {
    if handle is Some {
        ChildState::Running
    } else {
        ChildState::NotStarted
    }
}

/// The state that a handled exit leaves: `Reaped` where a child was running,
/// and otherwise the state as it was.
pub open spec fn state_after_exit(state: ChildState) -> ChildState {
    if state is Running {
        ChildState::Reaped
    } else {
        state
    }
}

/// A handled exit leaves no child running, and a second one changes nothing:
/// a child is reaped once.
pub proof fn lemma_exit_settles(state: ChildState)
    ensures
        !(state_after_exit(state) is Running),
        state_after_exit(state_after_exit(state)) == state_after_exit(state),
        state_after_exit(state) is Reaped <==> state is Running || state is Reaped,
{
}

impl<H> Supervisor<H> {
    /// A handle is held exactly while the child counts as running.
    #[verifier::type_invariant]
    spec fn consistent(self) -> bool {
        self.state is Running <==> self.registry@ is Some
    }

    /// The state of the tracked child.
    pub closed spec fn spec_state(&self) -> ChildState {
        self.state
    }

    /// The handle that is held, if any.
    pub closed spec fn held(&self) -> Option<H> {
        self.registry@
    }

    /// A supervisor that has started nothing.
    pub fn new() -> (supervisor: Self)
        ensures
            supervisor.spec_state() is NotStarted,
            supervisor.held() is None,
    {
        Supervisor { registry: LifecycleRegistry::new(), state: ChildState::NotStarted }
    }

    /// The state of the tracked child.
    #[verifier::when_used_as_spec(spec_state)]
    pub fn state(&self) -> (state: ChildState)
        ensures
            state == self.spec_state(),
            state is Running <==> self.held() is Some,
    {
        proof {
            use_type_invariant(self);
        }
        self.state
    }

    /// The host has finished its setup: resolves the launch spec for
    /// `platform` from what was read, launches it through `spawn` and keeps
    /// the handle, in place of any it held.
    ///
    /// The hook is owed a request with a command, so it cannot be invoked
    /// where the resolved command is empty.
    pub fn on_setup_complete<F>(&mut self, read: &ConfigRead, platform: Platform, spawn: F) -> (notices:
        Vec<Notice>)
        where F: FnOnce(SpawnRequest) -> SpawnOutcome<H>
        requires
            forall|request: SpawnRequest|
                request@.spec.has_command() && request@.output == OutputStreams::Inherited
                    && request@.containment == platform.spec_containment() ==> spawn.requires(
                    (request,),
                ),
        ensures
            final(self).spec_state() == state_after_setup(final(self).held()),
            !resolved_spec(*read, platform).has_command() ==> final(self).held() is None
                && exists|problem: Option<NoticeView>|
                accounts_for(*read, problem) && notice_views(notices@) == led_by(
                    problem,
                    seq![NoticeView::CommandEmpty],
                ),
            resolved_spec(*read, platform).has_command() ==> exists|
                request: SpawnRequest,
                outcome: SpawnOutcome<H>,
            |
                request@ == requested(resolved_spec(*read, platform), platform) && spawn.ensures(
                    (request,),
                    outcome,
                ) && final(self).held() == outcome.handle() && notice_views(notices@) == seq![
                    starting_notice(resolved_spec(*read, platform)),
                ] + outcome.notices(),
    {
        let resolution = resolve(read, platform);
        let mut notices: Vec<Notice> = Vec::new();
        match resolution.notice {
            Some(notice) => {
                notices.push(notice);
            },
            None => {},
        }
        *self = Supervisor { registry: LifecycleRegistry::new(), state: ChildState::Spawning };
        let mut report = launch(resolution.spec, platform, spawn);
        notices.append(&mut report.notices);
        let state = if report.handle.is_some() {
            ChildState::Running
        } else {
            ChildState::NotStarted
        };
        let mut registry = LifecycleRegistry::new();
        registry.store(report.handle);
        *self = Supervisor { registry, state };
        notices
    }

    /// The host is about to exit: has the tracked child terminated through
    /// `terminate`, if there is one, and tracks nothing from then on.
    ///
    /// The hook is owed the held handle, so with none held it cannot be
    /// invoked: the call is then a silent no-op.
    pub fn on_exit_requested<K>(&mut self, terminate: K) -> (notices: Vec<Notice>)
        where K: FnOnce(H) -> Result<(), String>
        requires
            old(self).held() matches Some(handle) ==> terminate.requires((handle,)),
        ensures
            final(self).held() is None,
            final(self).spec_state() == state_after_exit(old(self).spec_state()),
            old(self).held() is None ==> notices@.len() == 0,
            old(self).held() matches Some(handle) ==> exists|result: Result<(), String>|
                terminate.ensures((handle,), result) && notice_views(notices@) == seq![
                    termination_notice(result),
                ],
    {
        proof {
            use_type_invariant(&*self);
        }
        let mut current = Supervisor::new();
        core::mem::swap(self, &mut current);
        let Supervisor { mut registry, state } = current;
        let report = on_exit(&mut registry, terminate);
        let state = if report.attempted {
            ChildState::Reaped
        } else {
            state
        };
        *self = Supervisor { registry, state };
        report.notices
    }
}

} // verus!

//! Ending the child when the host application exits.
//!
//! Termination is requested once and not waited for: the reaper drains the
//! registry, hands the handle to the caller's terminate hook and reports what
//! the hook said. With nothing in the registry it does nothing at all.

use crate::notice::{notice_views, Notice, NoticeView};
use crate::registry::{drained, LifecycleRegistry};
use vstd::prelude::*;

verus! {

/// What came of handling the exit.
pub struct ExitReport {
    /// Whether a termination request was made.
    pub attempted: bool,
    pub notices: Vec<Notice>,
}

/// The notice that reports how a termination request went.
pub open spec fn termination_notice(result: Result<(), String>) -> NoticeView {
    match result {
        Ok(_) => NoticeView::Terminated,
        Err(cause) => NoticeView::TerminationFailed { cause: cause@ },
    }
}

/// Turns what the terminate hook reported into a notice. A refused request
/// is reported and nothing more: it is neither repeated nor passed on.
pub fn conclude_exit(result: Result<(), String>) -> (notice: Notice)
    ensures
        notice@ == termination_notice(result),
{
    match result {
        Ok(_) => Notice::Terminated,
        Err(cause) => Notice::TerminationFailed { cause },
    }
}

/// Handles the host's exit: drains the registry and has the child terminated.
///
/// The hook is owed only the handle that the registry holds, so with an
/// empty registry it cannot be invoked: the call is then a silent no-op.
pub fn on_exit<H, K>(registry: &mut LifecycleRegistry<H>, terminate: K) -> (report: ExitReport)
    where K: FnOnce(H) -> Result<(), String>
    requires
        old(registry)@ matches Some(handle) ==> terminate.requires((handle,)),
    ensures
        final(registry)@ == drained(old(registry)@).1,
        report.attempted == (old(registry)@ is Some),
        old(registry)@ is None ==> report.notices@.len() == 0,
        old(registry)@ matches Some(handle) ==> exists|result: Result<(), String>|
            terminate.ensures((handle,), result) && notice_views(report.notices@)
                == seq![termination_notice(result)],
{
    let mut notices: Vec<Notice> = Vec::new();
    match registry.take_and_clear() {
        Some(handle) => {
            let result = terminate(handle);
            notices.push(conclude_exit(result));
            ExitReport { attempted: true, notices }
        },
        None => ExitReport { attempted: false, notices },
    }
}

} // verus!

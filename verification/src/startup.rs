//! The startup rendezvous: two readiness flags that gate the window handoff.
//!
//! The frontend and the backend each signal readiness once by marking their
//! flag. The call that completes the pair — and only that call — triggers
//! the handoff from the splashscreen window to the main window. Marking an
//! unrecognized task name is a programming error: the caller is told so
//! fatally rather than being allowed to proceed.
//!
//! All flag updates are expected to happen under one mutual-exclusion lock,
//! held by the caller around [`set_complete`] alone; the handoff itself (a
//! potentially slow window operation) is performed by the caller after the
//! lock is released. Under that discipline any concurrent schedule of mark
//! calls is equivalent to some sequential order of [`mark_spec`] steps, and
//! the lemmas below speak of every such order.

use crate::text::str_eq;
use vstd::prelude::*;

verus! {

/// The two readiness flags. Both start false; a flag, once set, is never
/// cleared again — there is no reset path.
pub struct SetupState {
    pub frontend_task: bool,
    pub backend_task: bool,
}

/// The task names the rendezvous recognizes.
pub open spec fn recognized(task: Seq<char>) -> bool {
    task == "frontend"@ || task == "backend"@
}

/// Both phases have signalled readiness: the rendezvous is terminal.
pub open spec fn both_ready(s: SetupState) -> bool {
    s.frontend_task && s.backend_task
}

/// The state after marking `task` done. An unrecognized name changes
/// nothing (the call is rejected instead).
pub open spec fn mark_spec(s: SetupState, task: Seq<char>) -> SetupState {
    if task == "frontend"@ {
        SetupState { frontend_task: true, ..s }
    } else if task == "backend"@ {
        SetupState { backend_task: true, ..s }
    } else {
        s
    }
}

/// Whether marking `task` in state `s` completes the pair: exactly the
/// call whose own flag was the missing one triggers the window handoff.
pub open spec fn triggers_handoff(s: SetupState, task: Seq<char>) -> bool {
    recognized(task) && !both_ready(s) && both_ready(mark_spec(s, task))
}

impl SetupState {
    /// The initial rendezvous state: nothing ready yet.
    pub fn new() -> (r: SetupState)
        ensures
            !r.frontend_task,
            !r.backend_task,
    {
        SetupState { frontend_task: false, backend_task: false }
    }
}

/// Marks one startup task as complete.
///
/// Returns `Ok(true)` exactly when this call completed the pair, so the
/// caller must now perform the window handoff; `Ok(false)` when readiness
/// is still partial or was already terminal. An unrecognized task name is
/// rejected with a fatal message and leaves the state untouched; the
/// caller is expected to terminate on it, not to recover.
pub fn set_complete(state: &mut SetupState, task: &str) -> (r: Result<bool, String>)
    ensures
        *final(state) == mark_spec(*old(state), task@),
        recognized(task@) <==> r is Ok,
        r is Ok ==> r == Ok::<bool, String>(triggers_handoff(*old(state), task@)),
        r matches Err(m) ==> m@ == "Tâche invalide complétée!"@,
{
    let was_terminal = state.frontend_task && state.backend_task;
    if str_eq(task, "frontend") {
        state.frontend_task = true;
    } else if str_eq(task, "backend") {
        state.backend_task = true;
    } else {
        return Err(String::from_str("Tâche invalide complétée!"));
    }
    Ok(!was_terminal && state.frontend_task && state.backend_task)
}

/// From a fresh state, marking the two distinct tasks in either order
/// triggers the handoff on the second mark and only there: exactly one
/// handoff per process lifetime, whichever signal arrives first.
pub proof fn lemma_handoff_exactly_once(s: SetupState, first: Seq<char>, second: Seq<char>)
    requires
        !s.frontend_task,
        !s.backend_task,
        recognized(first),
        recognized(second),
        first != second,
    ensures
        !triggers_handoff(s, first),
        triggers_handoff(mark_spec(s, first), second),
{
}

/// Once the rendezvous is terminal, further marks neither change the
/// state nor trigger another handoff.
pub proof fn lemma_terminal_is_absorbing(s: SetupState, task: Seq<char>)
    requires
        both_ready(s),
    ensures
        mark_spec(s, task) == s,
        !triggers_handoff(s, task),
{
}

/// A readiness flag never reverts: marking can only add readiness.
pub proof fn lemma_flags_monotonic(s: SetupState, task: Seq<char>)
    ensures
        s.frontend_task ==> mark_spec(s, task).frontend_task,
        s.backend_task ==> mark_spec(s, task).backend_task,
{
}

/// The state after marking every task in `tasks` in order, earliest
/// first.
pub open spec fn run_marks(s: SetupState, tasks: Seq<Seq<char>>) -> SetupState
    decreases tasks.len(),
{
    if tasks.len() == 0 {
        s
    } else {
        run_marks(mark_spec(s, tasks[0]), tasks.drop_first())
    }
}

/// How many of the marks in `tasks`, applied in order, trigger the
/// window handoff.
pub open spec fn handoff_count(s: SetupState, tasks: Seq<Seq<char>>) -> nat
    decreases tasks.len(),
{
    if tasks.len() == 0 {
        0
    } else {
        (if triggers_handoff(s, tasks[0]) {
            1nat
        } else {
            0nat
        }) + handoff_count(mark_spec(s, tasks[0]), tasks.drop_first())
    }
}

/// Readiness flags stay set across any sequence of marks.
pub proof fn lemma_run_marks_monotonic(s: SetupState, tasks: Seq<Seq<char>>)
    ensures
        s.frontend_task ==> run_marks(s, tasks).frontend_task,
        s.backend_task ==> run_marks(s, tasks).backend_task,
    decreases tasks.len(),
{
    if tasks.len() > 0 {
        lemma_run_marks_monotonic(mark_spec(s, tasks[0]), tasks.drop_first());
    }
}

/// Over any sequence of marks whatsoever — recognized or not, repeated
/// or not, in any interleaving the caller's lock admits — the handoff
/// triggers exactly once if the run reaches the terminal state from a
/// non-terminal one, and never otherwise.
pub proof fn lemma_one_handoff_per_process(s: SetupState, tasks: Seq<Seq<char>>)
    ensures
        handoff_count(s, tasks) == if !both_ready(s) && both_ready(run_marks(s, tasks)) {
            1nat
        } else {
            0nat
        },
    decreases tasks.len(),
{
    if tasks.len() > 0 {
        let s1 = mark_spec(s, tasks[0]);
        lemma_one_handoff_per_process(s1, tasks.drop_first());
        lemma_run_marks_monotonic(s1, tasks.drop_first());
    }
}

} // verus!

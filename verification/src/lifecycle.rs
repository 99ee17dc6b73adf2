//! Ending a process tree: the process-group guard captured at spawn, and
//! the decisions of graceful termination, forced kill and reaping. The
//! signals, waits and sleeps are made by the caller, which hands back what
//! it observed.
use vstd::prelude::*;
use vstd::string::*;

verus! {

/// Grace period between the polite and the forced signal, in milliseconds.
pub const TERMINATE_GRACE_PERIOD_MS: u64 = 500;

/// How long to wait for a killed group to disappear, in milliseconds.
pub const POST_KILL_VERIFY_PERIOD_MS: u64 = 1000;

/// How long to wait for the direct child after the forced signal, in
/// milliseconds.
pub const POST_KILL_WAIT_PERIOD_MS: u64 = 1000;

/// Error when the direct child is not reaped in time after the forced
/// signal.
pub const KILL_WAIT_TIMEOUT: &'static str = "timed out waiting for the direct child after SIGKILL";

/// Error when the group survives the forced signal.
pub const GROUP_SURVIVED_KILL: &'static str = "process group still exists after SIGKILL";

/// Error when a residual group survives cleanup.
pub const GROUP_SURVIVED_CLEANUP: &'static str = "process group still exists after cleanup";

/// Ownership of the process group of a spawned child: its id, captured at
/// spawn, and whether it may still be signalled.
#[derive(Debug)]
pub struct ProcessGroupHandle {
    pgid: i32,
    armed: bool,
}

/// The group id captured for a child with this process id: the id when it
/// is positive as a signed id, else none (0).
pub open spec fn captured_pgid(child_id: Option<u32>) -> int {
    match child_id {
        Some(p) => if 0 < p <= i32::MAX {
            p as int
        } else {
            0
        },
        None => 0,
    }
}

impl ProcessGroupHandle {
    /// The captured group id (0 when none).
    pub closed spec fn group(&self) -> int {
        self.pgid as int
    }

    /// Whether the handle still owns the group.
    pub closed spec fn armed(&self) -> bool {
        self.armed
    }

    /// Only a handle with a group id is armed.
    #[verifier::type_invariant]
    spec fn owns_a_group(&self) -> bool {
        self.armed ==> self.pgid > 0
    }

    /// The handle of a freshly spawned child with process id `child_id`
    /// (none when the child already exited): armed exactly when a group id
    /// was captured.
    pub fn from_child(child_id: Option<u32>) -> (h: Self)
        ensures
            h.group() == captured_pgid(child_id),
            h.armed() == (captured_pgid(child_id) > 0),
    {
        let pgid: i32 = match child_id {
            Some(p) => if p > 0 && p <= 0x7fff_ffff {
                p as i32
            } else {
                0
            },
            None => 0,
        };
        ProcessGroupHandle { pgid, armed: pgid > 0 }
    }

    /// Whether the handle may still signal its group.
    pub fn is_armed(&self) -> (b: bool)
        ensures
            b == self.armed(),
    {
        self.armed
    }

    /// Stops owning the group, once it was seen gone.
    pub fn disarm(&mut self)
        ensures
            !final(self).armed(),
            final(self).group() == old(self).group(),
    {
        self.armed = false;
    }

    /// The captured group id, if any.
    pub fn pgid(&self) -> (g: Option<i32>)
        ensures
            g == (if self.group() > 0 {
                Some(self.group() as i32)
            } else {
                None::<i32>
            }),
    {
        if self.pgid > 0 {
            Some(self.pgid)
        } else {
            None
        }
    }

    /// Whether dropping the handle must kill the group as a last resort: it
    /// is still armed.
    pub fn kills_on_drop(&self) -> (b: bool)
        ensures
            b == self.armed(),
    {
        proof {
            use_type_invariant(self);
        }
        self.armed && self.pgid > 0
    }
}

/// Whether an existence probe (signal 0 to the group) shows the group
/// alive: a positive id whose probe succeeded or failed with another error
/// than `no_such_process` (the group exists but may not be signalled). A
/// group without a positive id is gone; its probe is not made and the probe
/// values are ignored.
pub fn process_group_exists(pgid: i32, probe_result: i32, os_error: Option<i32>, no_such_process: i32) -> (alive:
    bool)
    ensures
        alive == (pgid > 0 && (probe_result == 0 || os_error != Some(no_such_process))),
{
    if pgid <= 0 {
        return false;
    }
    if probe_result == 0 {
        return true;
    }
    match os_error {
        Some(e) => e != no_such_process,
        None => true,
    }
}

/// Outcome of signalling the group: nothing to do without a group id; done
/// when the signal was sent or the group was already gone; else the
/// system's error.
pub fn signal_group_result(
    pgid: Option<i32>,
    signal_result: i32,
    os_error: Option<i32>,
    no_such_process: i32,
    error_text: String,
) -> (r: Result<(), String>)
    ensures
        r is Err <==> (pgid is Some && signal_result != 0 && os_error != Some(no_such_process)),
        r is Err ==> r->Err_0@ == error_text@,
{
    match pgid {
        None => Ok(()),
        Some(_) => {
            if signal_result == 0 {
                Ok(())
            } else {
                match os_error {
                    Some(e) => {
                        if e == no_such_process {
                            Ok(())
                        } else {
                            Err(error_text)
                        }
                    },
                    None => Err(error_text),
                }
            }
        },
    }
}

// ---------------------------------------------------------------------------
// Termination
// ---------------------------------------------------------------------------
/// What polling the direct child found.
#[derive(Debug)]
pub enum ChildPoll {
    /// It has exited and is reaped.
    Exited,
    /// It still runs.
    Running,
    /// Polling failed with this error.
    Failed(String),
}

/// What to do after one look during the grace period.
#[derive(Debug)]
pub enum GraceStep {
    /// Child reaped and group gone: disarm, done.
    Finished,
    /// Sleep and look again.
    Continue { child_reaped: bool },
    /// Send the forced signal.
    Escalate { child_reaped: bool, wait_error: Option<String> },
}

/// View of a [`GraceStep`]: (finished, escalate, child reaped, wait error).
pub open spec fn grace_view(s: GraceStep) -> (bool, bool, bool, Option<Seq<char>>) {
    match s {
        GraceStep::Finished => (true, false, true, None),
        GraceStep::Continue { child_reaped } => (false, false, child_reaped, None),
        GraceStep::Escalate { child_reaped, wait_error } => (false, true, child_reaped, match wait_error {
            Some(e) => Some(e@),
            None => None,
        }),
    }
}

/// One look during the grace period after the polite signal. A child not
/// yet reaped is polled: its exit marks it reaped, a polling error
/// escalates at once with that error. Once the child is reaped and the
/// group gone, termination is finished; past the deadline it escalates;
/// otherwise it looks again. The poll is ignored for a child already
/// reaped, and whether the group is alive matters only once it is.
pub open spec fn grace_step_spec(
    child_reaped: bool,
    poll: ChildPoll,
    group_alive: bool,
    past_deadline: bool,
) -> (bool, bool, bool, Option<Seq<char>>) {
    let failed = !child_reaped && poll is Failed;
    let reaped = child_reaped || poll is Exited;
    if failed {
        (false, true, false, Some(poll->Failed_0@))
    } else if reaped && !group_alive {
        (true, false, true, None)
    } else if past_deadline {
        (false, true, reaped, None)
    } else {
        (false, false, reaped, None)
    }
}

/// Decides one look of the grace period (see [`grace_step_spec`]).
pub fn grace_step(child_reaped: bool, poll: ChildPoll, group_alive: bool, past_deadline: bool) -> (s: GraceStep)
    ensures
        grace_view(s) == grace_step_spec(child_reaped, poll, group_alive, past_deadline),
{
    let ghost p = poll;
    let mut reaped = child_reaped;
    if !child_reaped {
        match poll {
            ChildPoll::Exited => {
                reaped = true;
            },
            ChildPoll::Running => {},
            ChildPoll::Failed(e) => {
                return GraceStep::Escalate { child_reaped: false, wait_error: Some(e) };
            },
        }
    }
    if reaped && !group_alive {
        GraceStep::Finished
    } else if past_deadline {
        GraceStep::Escalate { child_reaped: reaped, wait_error: None }
    } else {
        GraceStep::Continue { child_reaped: reaped }
    }
}

/// How waiting for the direct child after the forced signal ended.
#[derive(Debug)]
pub enum KillWait {
    Exited,
    Failed(String),
    TimedOut,
}

/// The wait error after the forced signal: unchanged when the child was
/// already reaped (no wait is made) or when the wait saw it exit; the
/// wait's error when it failed; a timeout error when it timed out.
pub open spec fn kill_wait_error_spec(child_reaped: bool, wait_error: Option<Seq<char>>, wait: KillWait) -> Option<
    Seq<char>,
> {
    if child_reaped {
        wait_error
    } else {
        match wait {
            KillWait::Exited => wait_error,
            KillWait::Failed(e) => Some(e@),
            KillWait::TimedOut => Some(KILL_WAIT_TIMEOUT@),
        }
    }
}

/// View of an optional error text.
pub open spec fn opt_text(e: Option<String>) -> Option<Seq<char>> {
    match e {
        Some(t) => Some(t@),
        None => None,
    }
}

/// Folds the wait after the forced signal into the wait error (see
/// [`kill_wait_error_spec`]).
pub fn kill_wait_error(child_reaped: bool, wait_error: Option<String>, wait: KillWait) -> (r: Option<String>)
    ensures
        opt_text(r) == kill_wait_error_spec(child_reaped, opt_text(wait_error), wait),
{
    if child_reaped {
        return wait_error;
    }
    match wait {
        KillWait::Exited => wait_error,
        KillWait::Failed(e) => Some(e),
        KillWait::TimedOut => Some(String::from_str(KILL_WAIT_TIMEOUT)),
    }
}

/// Result of a forced termination: the wait error first, else an error
/// when the group survived, else success.
pub open spec fn termination_result_spec(wait_error: Option<Seq<char>>, group_survived: bool) -> Result<(), Seq<char>> {
    match wait_error {
        Some(e) => Err(e),
        None => if group_survived {
            Err(GROUP_SURVIVED_KILL@)
        } else {
            Ok(())
        },
    }
}

/// View of a result with an error text.
pub open spec fn result_text(r: Result<(), String>) -> Result<(), Seq<char>> {
    match r {
        Ok(()) => Ok(()),
        Err(e) => Err(e@),
    }
}

/// Ends a forced termination (see [`termination_result_spec`]); the handle
/// is disarmed exactly when the group is gone, and keeps its guard
/// otherwise.
pub fn finish_termination(group: &mut ProcessGroupHandle, wait_error: Option<String>, group_survived: bool) -> (r:
    Result<(), String>)
    ensures
        result_text(r) == termination_result_spec(opt_text(wait_error), group_survived),
        final(group).armed() == (old(group).armed() && group_survived),
        final(group).group() == old(group).group(),
{
    if !group_survived {
        group.disarm();
    }
    match wait_error {
        Some(e) => Err(e),
        None => {
            if group_survived {
                Err(String::from_str(GROUP_SURVIVED_KILL))
            } else {
                Ok(())
            }
        },
    }
}

/// Ends termination of a child whose group was never captured: the reaping
/// wait's outcome; the handle is disarmed when the child was reaped.
pub fn finish_direct_termination(group: &mut ProcessGroupHandle, reaped: Result<(), String>) -> (r: Result<(), String>)
    ensures
        result_text(r) == result_text(reaped),
        final(group).armed() == (old(group).armed() && reaped is Err),
        final(group).group() == old(group).group(),
{
    match reaped {
        Ok(()) => {
            group.disarm();
            Ok(())
        },
        Err(e) => Err(e),
    }
}

/// Whether a group needs cleanup after its direct child exited: it is
/// armed and still alive. Otherwise the handle is disarmed and cleanup is
/// done.
pub fn cleanup_needed(group: &mut ProcessGroupHandle, group_alive: bool) -> (needed: bool)
    ensures
        needed == (old(group).armed() && group_alive),
        final(group).armed() == needed,
        final(group).group() == old(group).group(),
{
    if !group.is_armed() || !group_alive {
        group.disarm();
        false
    } else {
        true
    }
}

/// Ends the cleanup of a residual group: an error when it is still alive;
/// else the handle is disarmed and cleanup succeeded.
pub fn finish_cleanup(group: &mut ProcessGroupHandle, group_alive: bool) -> (r: Result<(), String>)
    ensures
        group_alive ==> result_text(r) == Err::<(), Seq<char>>(GROUP_SURVIVED_CLEANUP@) && final(group).armed()
            == old(group).armed(),
        !group_alive ==> r is Ok && !final(group).armed(),
        final(group).group() == old(group).group(),
{
    if group_alive {
        Err(String::from_str(GROUP_SURVIVED_CLEANUP))
    } else {
        group.disarm();
        Ok(())
    }
}

} // verus!

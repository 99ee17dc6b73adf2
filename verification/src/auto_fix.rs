//! The check-and-fix loop: run a check, hand its failure to a fixer, and
//! check again, within an iteration budget.
use vstd::prelude::*;

verus! {

/// Outcome of a check that can be fixed automatically.
#[derive(Debug, Clone)]
pub struct FixableResult {
    /// Whether the check passed.
    pub success: bool,
    pub stdout: String,
    pub stderr: String,
    pub exit_code: Option<i32>,
    /// Extra context for the fix request.
    pub context_prompt: Option<String>,
}

/// What the loop does next.
#[derive(Debug, Clone, Copy, PartialEq, Eq, Structural)]
pub enum FixLoopAction {
    /// Ask the fixer to fix the last failure, as iteration `iteration`
    /// (1-based), then run the check again.
    RequestFix { iteration: usize },
    /// Stop: the check passed or the budget is spent, after `iterations`
    /// fixes.
    Finish { iterations: usize, success: bool },
}

/// What follows a check after `done` fixes of a budget of `budget`: stop
/// on success; else request the next fix while the budget lasts; else stop
/// unsuccessfully.
pub open spec fn next_action(done: nat, budget: nat, success: bool) -> FixLoopAction {
    if success {
        FixLoopAction::Finish { iterations: done as usize, success: true }
    } else if done < budget {
        FixLoopAction::RequestFix { iteration: (done + 1) as usize }
    } else {
        FixLoopAction::Finish { iterations: done as usize, success: false }
    }
}

/// A check-and-fix loop driven by check outcomes; the fixer `F` is held for
/// the caller.
pub struct AutoFixer<F> {
    fixer: F,
    max_iterations: usize,
    iteration: usize,
}

impl<F> AutoFixer<F> {
    /// A loop never requests more fixes than its budget.
    #[verifier::type_invariant]
    spec fn within_budget(&self) -> bool {
        self.iteration <= self.max_iterations
    }

    /// Fixes requested so far.
    pub closed spec fn iterations(&self) -> nat {
        self.iteration as nat
    }

    /// The iteration budget.
    pub closed spec fn budget(&self) -> nat {
        self.max_iterations as nat
    }

    /// The fixer the loop holds.
    pub closed spec fn held_fixer(&self) -> F {
        self.fixer
    }

    /// A loop with at most `max_iterations` fixes.
    pub fn new(fixer: F, max_iterations: usize) -> (a: Self)
        ensures
            a.iterations() == 0,
            a.budget() == max_iterations,
            a.held_fixer() == fixer,
    {
        AutoFixer { fixer, max_iterations, iteration: 0 }
    }

    /// The fixer.
    pub fn fixer(&self) -> (f: &F)
        ensures
            *f == self.held_fixer(),
    {
        &self.fixer
    }

    /// Starts a new run: no fixes requested yet, the budget and the fixer
    /// kept.
    pub fn start_run(&mut self)
        ensures
            final(self).iterations() == 0,
            final(self).budget() == old(self).budget(),
            final(self).held_fixer() == old(self).held_fixer(),
    {
        self.iteration = 0;
    }

    /// Decides what follows a check (see [`next_action`]).
    pub fn after_check(&mut self, success: bool) -> (a: FixLoopAction)
        ensures
            final(self).budget() == old(self).budget(),
            final(self).held_fixer() == old(self).held_fixer(),
            final(self).iterations() <= final(self).budget(),
            a == next_action(old(self).iterations(), old(self).budget(), success),
            final(self).iterations() == (if a is RequestFix {
                old(self).iterations() + 1
            } else {
                old(self).iterations()
            }),
    {
        proof {
            use_type_invariant(&*self);
        }
        if success {
            return FixLoopAction::Finish { iterations: self.iteration, success: true };
        }
        if self.iteration < self.max_iterations {
            self.iteration = self.iteration + 1;
            FixLoopAction::RequestFix { iteration: self.iteration }
        } else {
            FixLoopAction::Finish { iterations: self.iteration, success: false }
        }
    }
}

} // verus!

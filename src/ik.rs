//! The bounded iteration driver of the inverse-kinematics solver.
//!
//! Each iteration evaluates the chain, measures the distance to the target and
//! reports whether it is below the tolerance. The driver decides whether to
//! go on: it stops at the first iteration whose error is below tolerance
//! (converged) or once the iteration budget is spent (exhausted).
use vstd::prelude::*;

verus! {

/// Joint count used when a request names none.
pub const DEFAULT_JOINT_COUNT: u32 = 7;

/// Iteration budget used when a request names none.
pub const DEFAULT_MAX_ITERATIONS: u32 = 100;

/// Where the iteration stands.
#[derive(PartialEq, Eq, Structural, Clone, Copy, Debug)]
pub enum IkPhase {
    Iterating,
    Converged,
    Exhausted,
}

/// State of one solve: the budget, the iterations run so far, and the phase.
#[derive(Clone, Copy, Debug)]
pub struct IkLoop {
    pub max_iterations: u32,
    pub iterations: u32,
    pub phase: IkPhase,
}

/// The joint count of a request, or the default.
pub fn joint_count(requested: Option<u32>) -> (r: u32)
    ensures
        r == match requested {
            Some(n) => n,
            None => DEFAULT_JOINT_COUNT,
        },
{
    match requested {
        Some(n) => n,
        None => DEFAULT_JOINT_COUNT,
    }
}

/// The state before any iteration with a budget of `max_iterations`.
pub open spec fn start(max_iterations: u32) -> IkLoop {
    IkLoop {
        max_iterations,
        iterations: 0,
        phase: if max_iterations == 0 { IkPhase::Exhausted } else { IkPhase::Iterating },
    }
}

/// The state after one more iteration whose error was (or was not) below tolerance.
pub open spec fn step(l: IkLoop, below_tolerance: bool) -> IkLoop {
    IkLoop {
        max_iterations: l.max_iterations,
        iterations: (l.iterations + 1) as u32,
        phase: if below_tolerance {
            IkPhase::Converged
        } else if l.iterations + 1 == l.max_iterations {
            IkPhase::Exhausted
        } else {
            IkPhase::Iterating
        },
    }
}

/// The state reached from `l` when successive iterations report `checks`,
/// one per iteration, until the loop stops; checks left over are not used.
pub open spec fn feed(l: IkLoop, checks: Seq<bool>) -> IkLoop
    decreases checks.len(),
{
    if checks.len() == 0 || l.phase != IkPhase::Iterating {
        l
    } else {
        feed(step(l, checks[0]), checks.drop_first())
    }
}

impl IkLoop {
    /// Well-formed: the count never passes the budget, an iterating loop has
    /// budget left, an exhausted one has spent it, a converged one ran at least once.
    pub open spec fn wf(&self) -> bool {
        &&& self.iterations <= self.max_iterations
        &&& self.phase == IkPhase::Iterating ==> self.iterations < self.max_iterations
        &&& self.phase == IkPhase::Exhausted ==> self.iterations == self.max_iterations
        &&& self.phase == IkPhase::Converged ==> self.iterations >= 1
    }

    /// A fresh solve with a budget of `max_iterations`.
    pub fn new(max_iterations: u32) -> (r: IkLoop)
        ensures
            r == start(max_iterations),
            r.wf(),
    {
        IkLoop {
            max_iterations,
            iterations: 0,
            phase: if max_iterations == 0 { IkPhase::Exhausted } else { IkPhase::Iterating },
        }
    }

    /// A fresh solve with the requested budget, or the default one.
    pub fn with_limit(max_iterations: Option<u32>) -> (r: IkLoop)
        ensures
            r == start(
                match max_iterations {
                    Some(m) => m,
                    None => DEFAULT_MAX_ITERATIONS,
                },
            ),
            r.wf(),
    {
        match max_iterations {
            Some(m) => IkLoop::new(m),
            None => IkLoop::new(DEFAULT_MAX_ITERATIONS),
        }
    }

    /// Whether another iteration is due.
    pub fn is_running(&self) -> (r: bool)
        ensures
            r == (self.phase == IkPhase::Iterating),
    {
        self.phase == IkPhase::Iterating
    }

    /// Whether the solve stopped because an error fell below tolerance.
    pub fn converged(&self) -> (r: bool)
        ensures
            r == (self.phase == IkPhase::Converged),
    {
        self.phase == IkPhase::Converged
    }

    /// Records one iteration and whether its error was below tolerance.
    pub fn record(&mut self, below_tolerance: bool)
        requires
            old(self).wf(),
            old(self).phase == IkPhase::Iterating,
        ensures
            *final(self) == step(*old(self), below_tolerance),
            final(self).wf(),
    {
        self.iterations = self.iterations + 1;
        self.phase = if below_tolerance {
            IkPhase::Converged
        } else if self.iterations == self.max_iterations {
            IkPhase::Exhausted
        } else {
            IkPhase::Iterating
        };
    }
}

/// Feeding checks keeps a loop well-formed, and a loop that converges on the
/// way did so on a check that was below tolerance.
proof fn lemma_feed(l: IkLoop, checks: Seq<bool>)
    requires
        l.wf(),
    ensures
        feed(l, checks).wf(),
        feed(l, checks).max_iterations == l.max_iterations,
        feed(l, checks).iterations >= l.iterations,
        l.phase == IkPhase::Iterating && feed(l, checks).phase == IkPhase::Converged ==> {
            let k = feed(l, checks).iterations - l.iterations - 1;
            &&& 0 <= k < checks.len()
            &&& checks[k]
            &&& forall|j: int| 0 <= j < k ==> !checks[j]
        },
    decreases checks.len(),
{
    if checks.len() == 0 || l.phase != IkPhase::Iterating {
    } else {
        let next = step(l, checks[0]);
        let rest = checks.drop_first();
        lemma_feed(next, rest);
        if next.phase == IkPhase::Iterating && feed(next, rest).phase == IkPhase::Converged {
            let k = feed(next, rest).iterations - next.iterations - 1;
            assert(rest[k] == checks[k + 1]);
            assert forall|j: int| 0 <= j < k + 1 implies !checks[j] by {
                if j > 0 {
                    assert(rest[j - 1] == checks[j]);
                }
            }
        }
    }
}

/// Whatever the iterations report, a solve never runs more iterations than
/// its budget, and it is converged only if the error of its last iteration
/// was below tolerance (and no earlier one was).
pub proof fn lemma_solve_bounded_and_sound(max_iterations: u32, checks: Seq<bool>)
    ensures
        feed(start(max_iterations), checks).iterations <= max_iterations,
        feed(start(max_iterations), checks).phase == IkPhase::Converged ==> {
            let n = feed(start(max_iterations), checks).iterations;
            &&& 1 <= n <= checks.len()
            &&& checks[n - 1]
            &&& forall|j: int| 0 <= j < n - 1 ==> !checks[j]
        },
{
    lemma_feed(start(max_iterations), checks);
}

/// A solve whose first iteration is already below tolerance converges after
/// exactly one iteration, whatever its (positive) budget.
pub proof fn lemma_immediate_convergence(max_iterations: u32, checks: Seq<bool>)
    requires
        max_iterations > 0,
        checks.len() > 0,
        checks[0],
    ensures
        feed(start(max_iterations), checks).phase == IkPhase::Converged,
        feed(start(max_iterations), checks).iterations == 1,
{
    let s = step(start(max_iterations), checks[0]);
    assert(feed(start(max_iterations), checks) == feed(s, checks.drop_first()));
}

} // verus!

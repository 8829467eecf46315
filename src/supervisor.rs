use vstd::prelude::*;

verus! {

/// How a worker loop ended.
#[derive(Clone, Copy, PartialEq, Eq, Structural, Debug)]
pub enum LoopExit {
    /// It saw the running flag cleared and shut its light down.
    Graceful,
    /// It panicked.
    Abnormal,
}

/// What a supervisor does next with its loop.
#[derive(Clone, Copy, PartialEq, Eq, Structural, Debug)]
pub enum SupervisorStep {
    /// (Re)start the loop.
    Run,
    /// The loop is finished; supervision ends.
    Done,
    /// Too many abnormal exits in all: everything is told to stop, and this
    /// supervision ends with an error.
    BudgetExceeded,
}

/// The failure budget shared by all worker loops, as plain values: abnormal
/// exits so far, how many are tolerated, and the process-wide running flag.
pub struct BudgetState {
    pub failures: u64,
    pub ceiling: u32,
    pub running: bool,
}

pub open spec fn exhausted(b: BudgetState) -> bool {
    b.failures > b.ceiling
}

pub open spec fn new_budget_spec(ceiling: u32) -> BudgetState {
    BudgetState { failures: 0, ceiling, running: true }
}

/// Before a loop (re)starts: once the failures exceed the ceiling, the running
/// flag is cleared and the loop is not started.
pub open spec fn before_start_spec(b: BudgetState) -> (BudgetState, SupervisorStep) {
    if exhausted(b) {
        (BudgetState { running: false, ..b }, SupervisorStep::BudgetExceeded)
    } else {
        (b, SupervisorStep::Run)
    }
}

/// After a loop ended: a graceful end finishes its supervision; an abnormal
/// one is counted, and the loop restarts if the budget still allows it.
pub open spec fn after_exit_spec(b: BudgetState, exit: LoopExit) -> (BudgetState, SupervisorStep) {
    match exit {
        LoopExit::Graceful => (b, SupervisorStep::Done),
        LoopExit::Abnormal => {
            let failures = if b.failures < u64::MAX {
                (b.failures + 1) as u64
            } else {
                b.failures
            };
            before_start_spec(BudgetState { failures, ..b })
        },
    }
}

/// The budget after `n` abnormal exits in a row.
pub open spec fn abnormal_exits(b: BudgetState, n: nat) -> BudgetState
    decreases n,
{
    if n == 0 {
        b
    } else {
        after_exit_spec(abnormal_exits(b, (n - 1) as nat), LoopExit::Abnormal).0
    }
}

/// The failure count and running flag that every worker loop shares. Kept
/// behind one lock, so that no increment is lost and no restart decision races
/// the clearing of the flag.
pub struct FailureBudget {
    failures: u64,
    ceiling: u32,
    running: bool,
}

impl View for FailureBudget {
    type V = BudgetState;

    closed spec fn view(&self) -> BudgetState {
        BudgetState { failures: self.failures, ceiling: self.ceiling, running: self.running }
    }
}

impl FailureBudget {
    /// No failure yet, running, tolerating `ceiling` abnormal exits in all.
    pub fn new(ceiling: u32) -> (b: FailureBudget)
        ensures
            b@ == new_budget_spec(ceiling),
    {
        FailureBudget { failures: 0, ceiling, running: true }
    }

    pub fn is_running(&self) -> (r: bool)
        ensures
            r == self@.running,
    {
        self.running
    }

    pub fn failures(&self) -> (r: u64)
        ensures
            r == self@.failures,
    {
        self.failures
    }

    pub fn ceiling(&self) -> (r: u32)
        ensures
            r == self@.ceiling,
    {
        self.ceiling
    }

    /// Clears the running flag (an interrupt asked for shutdown).
    pub fn request_stop(&mut self)
        ensures
            final(self)@ == (BudgetState { running: false, ..old(self)@ }),
    {
        self.running = false;
    }

    /// Decides whether a loop may (re)start.
    pub fn before_start(&mut self) -> (r: SupervisorStep)
        ensures
            (final(self)@, r) == before_start_spec(old(self)@),
    {
        if self.failures > self.ceiling as u64 {
            self.running = false;
            SupervisorStep::BudgetExceeded
        } else {
            SupervisorStep::Run
        }
    }

    /// Records how a loop ended and decides what comes next.
    pub fn after_exit(&mut self, exit: LoopExit) -> (r: SupervisorStep)
        ensures
            (final(self)@, r) == after_exit_spec(old(self)@, exit),
    {
        match exit {
            LoopExit::Graceful => SupervisorStep::Done,
            LoopExit::Abnormal => {
                self.failures = self.failures.saturating_add(1);
                self.before_start()
            },
        }
    }
}

proof fn lemma_abnormal_exits_count(k: u32, n: nat)
    requires
        n <= k,
    ensures
        abnormal_exits(new_budget_spec(k), n) == (BudgetState {
            failures: n as u64,
            ceiling: k,
            running: true,
        }),
    decreases n,
{
    if n > 0 {
        lemma_abnormal_exits_count(k, (n - 1) as nat);
    }
}

/// With a ceiling of K, the first K abnormal exits each restart their loop;
/// the next one clears the running flag and ends supervision.
pub proof fn lemma_budget_allows_ceiling_restarts(k: u32, n: nat)
    ensures
        n <= k ==> abnormal_exits(new_budget_spec(k), n) == (BudgetState {
            failures: n as u64,
            ceiling: k,
            running: true,
        }),
        n < k ==> after_exit_spec(abnormal_exits(new_budget_spec(k), n), LoopExit::Abnormal).1
            == SupervisorStep::Run,
        after_exit_spec(abnormal_exits(new_budget_spec(k), k as nat), LoopExit::Abnormal) == (
        BudgetState { failures: (k + 1) as u64, ceiling: k, running: false },
        SupervisorStep::BudgetExceeded),
{
    if n <= k {
        lemma_abnormal_exits_count(k, n);
    }
    lemma_abnormal_exits_count(k, k as nat);
}

/// Once the budget is exhausted it stays so: no loop starts or restarts again,
/// and the running flag, once cleared, is never set again.
pub proof fn lemma_exhausted_budget_stops_all(b: BudgetState, exit: LoopExit)
    ensures
        exhausted(b) ==> before_start_spec(b).1 == SupervisorStep::BudgetExceeded,
        exhausted(b) ==> !before_start_spec(b).0.running,
        exhausted(b) ==> exhausted(before_start_spec(b).0),
        exhausted(b) ==> after_exit_spec(b, exit).1 != SupervisorStep::Run,
        exhausted(b) ==> exhausted(after_exit_spec(b, exit).0),
        !b.running ==> !before_start_spec(b).0.running,
        !b.running ==> !after_exit_spec(b, exit).0.running,
{
}

} // verus!

use build_status_light::supervisor::{FailureBudget, LoopExit, SupervisorStep};

#[test]
fn ceiling_restarts_then_stop() {
    let mut budget = FailureBudget::new(2);
    assert_eq!(budget.before_start(), SupervisorStep::Run);
    assert_eq!(budget.after_exit(LoopExit::Abnormal), SupervisorStep::Run);
    assert_eq!(budget.after_exit(LoopExit::Abnormal), SupervisorStep::Run);
    assert!(budget.is_running());
    assert_eq!(budget.failures(), 2);
    assert_eq!(budget.after_exit(LoopExit::Abnormal), SupervisorStep::BudgetExceeded);
    assert!(!budget.is_running());
    assert_eq!(budget.failures(), 3);
    assert_eq!(budget.before_start(), SupervisorStep::BudgetExceeded);
    assert_eq!(budget.after_exit(LoopExit::Abnormal), SupervisorStep::BudgetExceeded);
    assert_eq!(budget.after_exit(LoopExit::Graceful), SupervisorStep::Done);
    assert!(!budget.is_running());
}

#[test]
fn zero_ceiling_stops_on_first_failure() {
    let mut budget = FailureBudget::new(0);
    assert_eq!(budget.ceiling(), 0);
    assert_eq!(budget.before_start(), SupervisorStep::Run);
    assert_eq!(budget.after_exit(LoopExit::Abnormal), SupervisorStep::BudgetExceeded);
    assert!(!budget.is_running());
}

#[test]
fn shared_budget_across_loops() {
    let mut budget = FailureBudget::new(1);
    assert_eq!(budget.before_start(), SupervisorStep::Run);
    assert_eq!(budget.before_start(), SupervisorStep::Run);
    assert_eq!(budget.after_exit(LoopExit::Abnormal), SupervisorStep::Run);
    assert_eq!(budget.after_exit(LoopExit::Abnormal), SupervisorStep::BudgetExceeded);
    assert_eq!(budget.before_start(), SupervisorStep::BudgetExceeded);
}

#[test]
fn graceful_exit_finishes() {
    let mut budget = FailureBudget::new(3);
    assert_eq!(budget.after_exit(LoopExit::Graceful), SupervisorStep::Done);
    assert_eq!(budget.failures(), 0);
    assert!(budget.is_running());
}

#[test]
fn interrupt_clears_running_for_good() {
    let mut budget = FailureBudget::new(3);
    budget.request_stop();
    assert!(!budget.is_running());
    assert_eq!(budget.after_exit(LoopExit::Abnormal), SupervisorStep::Run);
    assert!(!budget.is_running());
    assert_eq!(budget.before_start(), SupervisorStep::Run);
    assert!(!budget.is_running());
}

use task_manager_pro::access_control::{format_role, Role};
use task_manager_pro::pausable::{format_pause_action, PauseAction};
use task_manager_pro::swap_router::RefundReason;

#[test]
fn pause_actions_are_reported_by_their_names() {
    assert_eq!(format_pause_action(PauseAction::CreateTask), "create_task");
    assert_eq!(format_pause_action(PauseAction::AssignTask), "assign_task");
    assert_eq!(format_pause_action(PauseAction::SubmitWork), "submit_work");
    assert_eq!(format_pause_action(PauseAction::CompleteTask), "complete_task");
    assert_eq!(format_pause_action(PauseAction::CancelTask), "cancel_task");
    assert_eq!(format_pause_action(PauseAction::DisputeTask), "dispute_task");
    assert_eq!(format_pause_action(PauseAction::Withdraw), "withdraw");
    assert_eq!(format_pause_action(PauseAction::All), "all");
}

#[test]
fn roles_are_reported_by_their_names() {
    assert_eq!(format_role(Role::Admin), "Admin");
    assert_eq!(format_role(Role::Manager), "Manager");
    assert_eq!(format_role(Role::Moderator), "Moderator");
    assert_eq!(format_role(Role::Verifier), "Verifier");
    assert_eq!(format_role(Role::Guardian), "Guardian");
}

#[test]
fn refund_reasons_read_as_the_contract_reports_them() {
    assert_eq!(RefundReason::RouteUnresolved.message(), "swap route could not be resolved");
    assert_eq!(RefundReason::NoInputPrice.message(), "no oracle price for input asset");
    assert_eq!(RefundReason::NoOutputPrice.message(), "no oracle price for output asset");
}

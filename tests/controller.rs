use git_tui_rust::git::RepoError;
use git_tui_rust::input::{checkout_finished, head_queried, process_event, AppState, Key, Step};

fn names(list: &[&str]) -> Vec<String> {
    list.iter().map(|s| s.to_string()).collect()
}

fn session() -> AppState {
    AppState::new(names(&["main", "dev", "feature"]), Some("main".to_string()))
}

fn checkout_target(step: Step) -> String {
    match step {
        Step::Checkout(b) => b,
        Step::Continue => panic!("expected a checkout, got Continue"),
        Step::Exit => panic!("expected a checkout, got Exit"),
    }
}

#[test]
fn new_session_starts_on_first_branch_without_message() {
    let s = session();
    assert_eq!(s.selected_index, 0);
    assert_eq!(s.message, "");
    assert_eq!(s.current_branch, Some("main".to_string()));
    assert_eq!(s.branches, names(&["main", "dev", "feature"]));
}

#[test]
fn down_then_confirm_checks_out_dev() {
    let mut s = session();
    assert!(matches!(process_event(&mut s, Key::Down), Step::Continue));
    let target = checkout_target(process_event(&mut s, Key::Enter));
    assert_eq!(target, "dev");
    assert!(checkout_finished(&mut s, &target, Ok(())));
    head_queried(&mut s, &target, Ok("dev".to_string()));
    assert_eq!(s.current_branch, Some("dev".to_string()));
    assert_eq!(s.message, "Branch was changed to: dev");
    assert!(s.message.contains("dev"));
}

#[test]
fn confirming_current_branch_needs_no_checkout() {
    let mut s = session();
    assert!(matches!(process_event(&mut s, Key::Enter), Step::Continue));
    assert_eq!(s.message, "already on this branch: main");
    assert_eq!(s.current_branch, Some("main".to_string()));
}

#[test]
fn confirming_current_branch_repeatedly_gives_same_message() {
    let mut s = session();
    for _ in 0..5 {
        assert!(matches!(process_event(&mut s, Key::Enter), Step::Continue));
        assert_eq!(s.message, "already on this branch: main");
        assert_eq!(s.selected_index, 0);
    }
}

#[test]
fn refused_checkout_keeps_current_branch() {
    let mut s = session();
    process_event(&mut s, Key::Down);
    process_event(&mut s, Key::Down);
    let target = checkout_target(process_event(&mut s, Key::Enter));
    assert_eq!(target, "feature");
    let reason = "local changes would be overwritten".to_string();
    let again = checkout_finished(&mut s, &target, Err(RepoError::CheckoutFailed(reason.clone())));
    assert!(!again);
    assert_eq!(s.current_branch, Some("main".to_string()));
    assert_eq!(s.selected_index, 2);
    assert!(s.message.contains("local changes would be overwritten"));
    assert_eq!(
        s.message,
        "Failed to checkout branch feature: local changes would be overwritten"
    );
}

#[test]
fn down_down_up_enter_targets_second_branch() {
    let mut s = session();
    process_event(&mut s, Key::Down);
    process_event(&mut s, Key::Down);
    process_event(&mut s, Key::Up);
    assert_eq!(s.selected_index, 1);
    let target = checkout_target(process_event(&mut s, Key::Enter));
    assert_eq!(target, s.branches[1]);
    assert_eq!(target, "dev");
}

#[test]
fn successful_checkout_then_head_query_makes_target_current() {
    let mut s = session();
    process_event(&mut s, Key::Down);
    process_event(&mut s, Key::Down);
    let target = checkout_target(process_event(&mut s, Key::Enter));
    assert!(checkout_finished(&mut s, &target, Ok(())));
    assert_eq!(s.current_branch, Some("main".to_string()));
    head_queried(&mut s, &target, Ok(target.clone()));
    assert_eq!(s.current_branch, Some("feature".to_string()));
    assert!(matches!(process_event(&mut s, Key::Enter), Step::Continue));
    assert_eq!(s.message, "already on this branch: feature");
}

#[test]
fn detached_head_after_checkout_is_not_reported_as_success() {
    let mut s = session();
    process_event(&mut s, Key::Down);
    let target = checkout_target(process_event(&mut s, Key::Enter));
    assert!(checkout_finished(&mut s, &target, Ok(())));
    head_queried(&mut s, &target, Err(RepoError::DetachedOrUnknown));
    assert_eq!(s.current_branch, Some("main".to_string()));
    assert_eq!(s.message, "Checked out dev, but HEAD does not name a branch");
    assert!(!s.message.contains("changed"));
}

#[test]
fn unavailable_repository_during_checkout_is_reported() {
    let mut s = session();
    process_event(&mut s, Key::Down);
    let target = checkout_target(process_event(&mut s, Key::Enter));
    let again = checkout_finished(&mut s, &target, Err(RepoError::RepoUnavailable("could not find repository".to_string())));
    assert!(!again);
    assert_eq!(s.message, "Failed to checkout branch dev: could not find repository");
    assert_eq!(s.current_branch, Some("main".to_string()));
}

#[test]
fn navigation_clamps_at_both_ends() {
    let mut s = session();
    process_event(&mut s, Key::Up);
    assert_eq!(s.selected_index, 0);
    for _ in 0..10 {
        process_event(&mut s, Key::Down);
        assert!(s.selected_index < 3);
    }
    assert_eq!(s.selected_index, 2);
    for _ in 0..10 {
        process_event(&mut s, Key::Up);
    }
    assert_eq!(s.selected_index, 0);
}

#[test]
fn mixed_keys_keep_selection_in_bounds() {
    let mut s = session();
    let keys = [
        Key::Down, Key::Char('x'), Key::Down, Key::Down, Key::Other, Key::Up, Key::Down,
        Key::Down, Key::Up, Key::Up, Key::Up, Key::Up,
    ];
    let expected = [1usize, 1, 2, 2, 2, 1, 2, 2, 1, 0, 0, 0];
    for (k, want) in keys.iter().zip(expected.iter()) {
        process_event(&mut s, *k);
        assert_eq!(s.selected_index, *want);
    }
}

#[test]
fn empty_branch_list_ignores_navigation_and_confirm() {
    let mut s = AppState::new(Vec::new(), None);
    process_event(&mut s, Key::Down);
    assert_eq!(s.selected_index, 0);
    process_event(&mut s, Key::Up);
    assert_eq!(s.selected_index, 0);
    assert!(matches!(process_event(&mut s, Key::Enter), Step::Continue));
    assert_eq!(s.message, "");
}

#[test]
fn quit_key_ends_session_without_change() {
    let mut s = session();
    process_event(&mut s, Key::Down);
    assert!(matches!(process_event(&mut s, Key::Char('q')), Step::Exit));
    assert_eq!(s.selected_index, 1);
    assert_eq!(s.message, "");
}

#[test]
fn other_keys_change_nothing() {
    let mut s = session();
    assert!(matches!(process_event(&mut s, Key::Char('Q')), Step::Continue));
    assert!(matches!(process_event(&mut s, Key::Other), Step::Continue));
    assert_eq!(s.selected_index, 0);
    assert_eq!(s.message, "");
}

#[test]
fn unknown_current_branch_always_checks_out() {
    let mut s = AppState::new(names(&["main", "dev"]), None);
    let target = checkout_target(process_event(&mut s, Key::Enter));
    assert_eq!(target, "main");
}

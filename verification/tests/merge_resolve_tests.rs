use zit::app_state::{AiAction, ConfirmAction, FollowUpAction, FollowUpItem, InputAction, Popup,
    View};
use zit::merge::{get_conflict_file, MergeState, MergeType};
use zit::merge_resolve::MergeResolveState;
use zit::status::get_status;

const CONFLICT: &str = "a\n<<<<<<< HEAD\nx\n=======\ny\n>>>>>>> other\nb\n";

fn dirty() -> MergeResolveState {
    let mut s = MergeResolveState::default();
    s.selected_file = 5;
    s.selected_region = 3;
    s.raw_conflict_content = Some("stale".to_string());
    s.total_lines = 9;
    s.ai_suggestion = Some("take theirs".to_string());
    s.ai_recommendation = Some("ACCEPT_INCOMING".to_string());
    s.ai_resolved_content = Some("y".to_string());
    s.scroll_left = 1;
    s.scroll_right = 2;
    s.scroll_center = 3;
    s.focused_panel = 2;
    s.follow_ups = vec![FollowUpItem {
        label: "Review changes".to_string(),
        description: "Go to staging view to review".to_string(),
        action: FollowUpAction::SwitchToView(View::Staging),
    }];
    s.follow_up_selected = 1;
    s
}

#[test]
fn refresh_takes_the_conflicts_and_keeps_the_selection_inside() {
    let mut s = dirty();
    let status = get_status("u UU N... 100644 100644 100644 100644 a b c one.rs\nu UU N... 100644 100644 100644 100644 a b c two.rs\n", None);
    let merge = MergeState { merge_type: MergeType::Merge, head_name: "main".to_string(), merge_head: None };
    s.refresh(status, Some(merge));
    assert_eq!(s.conflicted_files.len(), 2);
    assert_eq!(s.selected_file, 1);
    assert_eq!(s.selected_path(), Some("two.rs"));
    assert_eq!(s.merge_state.as_ref().unwrap().merge_type, MergeType::Merge);
    assert_eq!(s.total_lines, 9);
    assert_eq!(s.selected_region, 3);
    assert_eq!(s.ai_suggestion, Some("take theirs".to_string()));
    assert_eq!(s.follow_ups.len(), 1);

    s.refresh(get_status("", None), None);
    assert!(s.conflicted_files.is_empty());
    assert_eq!(s.selected_file, 1);
    assert_eq!(s.selected_path(), None);
    assert!(s.merge_state.is_none());
}

#[test]
fn loading_shows_the_file_and_starts_the_rest_anew() {
    let mut s = dirty();
    s.refresh(get_status("u UU N... 100644 100644 100644 100644 a b c one.rs\n", None), None);
    assert_eq!(s.selected_file, 0);
    s.load_selected_file(Some(get_conflict_file("one.rs", CONFLICT)));
    assert_eq!(s.raw_conflict_content, Some(CONFLICT.to_string()));
    assert_eq!(s.conflict_regions.len(), 1);
    assert_eq!(s.conflict_regions[0].current, vec!["x"]);
    assert_eq!(s.total_lines, 7);
    assert_eq!((s.selected_region, s.scroll_left, s.scroll_right, s.scroll_center), (0, 0, 0, 0));
    assert!(s.ai_suggestion.is_none() && s.ai_recommendation.is_none() && s.ai_resolved_content.is_none());
    assert!(s.follow_ups.is_empty());
    assert_eq!((s.focused_panel, s.follow_up_selected, s.selected_file), (2, 1, 0));
    assert_eq!(s.conflicted_files.len(), 1);

    s.load_selected_file(None);
    assert!(s.raw_conflict_content.is_none() && s.conflict_regions.is_empty());
    assert_eq!(s.total_lines, 0);
}

#[test]
fn a_file_without_a_selection_is_not_shown() {
    let mut s = dirty();
    s.load_selected_file(Some(get_conflict_file("one.rs", CONFLICT)));
    assert!(s.raw_conflict_content.is_none() && s.conflict_regions.is_empty());
    assert_eq!((s.total_lines, s.selected_file), (0, 5));
    let d = MergeResolveState::default();
    assert_eq!((d.selected_file, d.focused_panel, d.total_lines), (0, 0, 0));
    assert!(d.conflicted_files.is_empty() && d.merge_state.is_none() && d.follow_ups.is_empty());
}

#[test]
fn dialogs_and_actions_hold_their_values() {
    let popup = Popup::Confirm {
        title: "Delete".to_string(),
        message: "Delete branch old?".to_string(),
        on_confirm: ConfirmAction::DeleteBranch("old".to_string()),
    };
    assert!(matches!(&popup, Popup::Confirm { on_confirm: ConfirmAction::DeleteBranch(b), .. } if b == "old"));
    assert_ne!(popup, Popup::Closed);
    let input = Popup::Input {
        title: "Branch".to_string(),
        prompt: "Name".to_string(),
        value: String::new(),
        on_submit: InputAction::CreateBranch,
    };
    assert!(matches!(input, Popup::Input { on_submit: InputAction::CreateBranch, .. }));
    assert_ne!(Popup::Help, Popup::Message { title: "t".to_string(), message: "m".to_string() });
    assert_ne!(View::Dashboard, View::Stash);
    assert_eq!(AiAction::ReviewDiff("a.rs".to_string()), AiAction::ReviewDiff("a.rs".to_string()));
    assert_ne!(AiAction::ExplainError("e".to_string()), AiAction::Learn);
    assert_ne!(ConfirmAction::ClearStash, ConfirmAction::HardReset("abc".to_string()));
    assert_ne!(FollowUpAction::ContinueMerge, FollowUpAction::CommitNow);
}

use agent_ui::turn_stats::ActionInputs;
use agent_ui::turn_stats::ShareButton;
use agent_ui::turn_stats::Spinner;
use agent_ui::turn_stats::ThreadEntryKind;
use agent_ui::turn_stats::ThreadFeedback;
use agent_ui::turn_stats::TurnFields;
use agent_ui::turn_stats::last_user_message_index;
use agent_ui::turn_stats::render_thread_actions;
use agent_ui::turn_stats::render_thread_controls_stable;
use agent_ui::turn_stats::render_turn_stats;

fn fields(
    turn_elapsed: Option<u64>,
    last_turn_duration: Option<u64>,
    turn_tokens: Option<u64>,
    last_turn_tokens: Option<u64>,
) -> TurnFields<u64> {
    TurnFields { turn_elapsed, last_turn_duration, turn_tokens, last_turn_tokens }
}

fn inputs(enable_feedback: bool, has_telemetry: bool, feedback: Option<ThreadFeedback>, can_share: bool, is_imported_thread: bool) -> ActionInputs {
    ActionInputs { enable_feedback, has_telemetry, feedback, can_share, is_imported_thread }
}

#[test]
fn generating_turn_shows_running_time_and_tokens() {
    let s = render_turn_stats(true, false, true, &fields(Some(12), Some(40), Some(300), Some(900)));
    assert_eq!(s.spinner, Some(Spinner::Running));
    assert!(!s.show_edit_button);
    assert_eq!(s.elapsed, Some(12));
    assert_eq!(s.tokens, Some(300));
}

#[test]
fn waiting_turn_shows_sand_spinner() {
    let s = render_turn_stats(true, true, false, &fields(Some(1), None, Some(3), None));
    assert_eq!(s.spinner, Some(Spinner::Sand));
    assert_eq!(s.elapsed, None);
    assert_eq!(s.tokens, None);
}

#[test]
fn idle_turn_shows_last_turn() {
    let s = render_turn_stats(false, false, true, &fields(Some(5), Some(40), Some(300), Some(900)));
    assert_eq!(s.spinner, None);
    assert!(s.show_edit_button);
    assert_eq!(s.elapsed, Some(40));
    assert_eq!(s.tokens, Some(900));
    let s = render_turn_stats(false, false, true, &fields(None, Some(40), None, Some(0)));
    assert_eq!(s.tokens, None);
    let s = render_turn_stats(false, false, true, &fields(None, None, None, Some(7)));
    assert_eq!(s.elapsed, None);
    assert_eq!(s.tokens, None);
}

#[test]
fn stats_hidden_when_disabled() {
    let s = render_turn_stats(false, false, false, &fields(Some(5), Some(40), Some(1), Some(2)));
    assert!(!s.show_edit_button);
    assert_eq!(s.elapsed, None);
    assert_eq!(s.tokens, None);
}

#[test]
fn controls_show_actions_only_when_idle() {
    let f = fields(None, Some(3), None, Some(10));
    let i = inputs(true, true, None, false, false);
    let c = render_thread_controls_stable(false, false, true, &f, i);
    assert_eq!(c.stats.elapsed, Some(3));
    assert!(c.actions.is_some());
    assert!(render_thread_controls_stable(true, false, true, &f, i).actions.is_none());
    assert!(render_thread_controls_stable(false, true, true, &f, i).actions.is_none());
}

#[test]
fn edit_message_targets_the_last_user_message() {
    assert_eq!(
        last_user_message_index(&vec![
            ThreadEntryKind::UserMessage,
            ThreadEntryKind::AssistantMessage,
            ThreadEntryKind::UserMessage,
            ThreadEntryKind::ToolCall
        ]),
        Some(2)
    );
    assert_eq!(last_user_message_index(&vec![ThreadEntryKind::AssistantMessage, ThreadEntryKind::ToolCall]), None);
    assert_eq!(last_user_message_index(&vec![]), None);
}

#[test]
fn thread_actions() {
    let a = render_thread_actions(inputs(true, true, Some(ThreadFeedback::Positive), true, false));
    assert!(a.show_feedback && a.thumbs_up_given && !a.thumbs_down_given);
    assert_eq!(a.share, Some(ShareButton::Share));
    let a = render_thread_actions(inputs(true, false, Some(ThreadFeedback::Negative), true, true));
    assert!(!a.show_feedback && !a.thumbs_up_given && a.thumbs_down_given);
    assert_eq!(a.share, Some(ShareButton::Sync));
    let a = render_thread_actions(inputs(false, true, None, false, true));
    assert!(!a.show_feedback && !a.thumbs_up_given && !a.thumbs_down_given);
    assert_eq!(a.share, None);
}

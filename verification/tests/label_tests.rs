use agent_ui::tab::ActiveView;
use agent_ui::tab::AgentType;
use agent_ui::tab::AgentPanelTab;
use agent_ui::tab_label::TabBar;
use agent_ui::tab_label::TabIcon;
use agent_ui::tabs::AgentPanel;

#[test]
fn short_titles_are_kept() {
    assert_eq!(AgentPanel::display_tab_label("Chat", true), ("Chat".to_string(), None));
    let twenty = "abcdefghijklmnopqrst";
    assert_eq!(AgentPanel::display_tab_label(twenty, false), (twenty.to_string(), None));
    assert_eq!(AgentPanel::display_tab_label("", false), (String::new(), None));
}

#[test]
fn long_titles_are_cut_with_tooltip() {
    let title = "abcdefghijklmnopqrstu";
    assert_eq!(
        AgentPanel::display_tab_label(title, true),
        ("abcdefghijklmnopqrst...".to_string(), Some(title.to_string()))
    );
}

#[test]
fn titles_are_cut_by_characters_not_bytes() {
    let title = "ééééééééééééééééééééé";
    let (label, tooltip) = AgentPanel::display_tab_label(title, true);
    assert_eq!(label, format!("{}...", "é".repeat(20)));
    assert_eq!(tooltip, Some(title.to_string()));
    let kept = "éééééééééééééééééééé";
    assert_eq!(AgentPanel::display_tab_label(kept, true), (kept.to_string(), None));
}

#[test]
fn titles_by_view() {
    assert_eq!(AgentPanel::tab_title_text(&ActiveView::AgentThread { server_view: 1 }, "My thread"), "My thread");
    assert_eq!(
        AgentPanel::tab_title_text(&ActiveView::TextThread { text_thread_editor: 1, title_editor: 2 }, "x"),
        "Text Thread"
    );
    assert_eq!(AgentPanel::tab_title_text(&ActiveView::History, "x"), "History");
    assert_eq!(AgentPanel::tab_title_text(&ActiveView::Configuration, "x"), "Settings");
    assert_eq!(AgentPanel::tab_title_text(&ActiveView::Uninitialized, "x"), "Loading\u{2026}");
}

#[test]
fn rendered_labels_are_muted_when_inactive() {
    let label = AgentPanel::render_tab_label(&ActiveView::History, false, "");
    assert_eq!(label.text, "History");
    assert_eq!(label.tooltip, None);
    assert!(label.muted);
    let long = "A very long agent thread title";
    let label = AgentPanel::render_tab_label(&ActiveView::AgentThread { server_view: 3 }, true, long);
    assert_eq!(label.text, "A very long agent th...");
    assert_eq!(label.tooltip, Some(long.to_string()));
    assert!(!label.muted);
}

#[test]
fn only_custom_agents_have_icons() {
    assert!(AgentPanel::render_tab_agent_icon(&AgentType::NativeAgent, Some("x.svg".to_string())).is_none());
    assert!(AgentPanel::render_tab_agent_icon(&AgentType::TextThread, None).is_none());
    let custom = AgentType::Custom { name: "gemini".to_string() };
    match AgentPanel::render_tab_agent_icon(&custom, Some("icons/g.svg".to_string())) {
        Some(TabIcon::External(path)) => assert_eq!(path, "icons/g.svg"),
        other => panic!("unexpected icon {:?}", other),
    }
    assert!(matches!(AgentPanel::render_tab_agent_icon(&custom, None), Some(TabIcon::Sparkle)));
}

#[test]
fn tab_bar_lists_the_tabs() {
    let mut panel = AgentPanel::new(
        AgentPanelTab::new(ActiveView::AgentThread { server_view: 1 }, AgentType::Custom { name: "x".to_string() }),
        AgentType::NativeAgent,
    );
    panel.tabs.push(AgentPanelTab::new(ActiveView::TextThread { text_thread_editor: 2, title_editor: 3 }, AgentType::TextThread));
    panel.active_tab_id = 1;
    let titles = vec!["A thread with a rather long title".to_string(), String::new()];
    let icons = vec![None, Some("ignored.svg".to_string())];
    match panel.render_tab_bar(false, &titles, &icons) {
        TabBar::Tabs(entries) => {
            assert_eq!(entries.len(), 2);
            assert_eq!(entries[0].index, 0);
            assert!(!entries[0].is_active);
            assert_eq!(entries[0].label.text, "A thread with a rath...");
            assert_eq!(entries[0].label.tooltip, Some(titles[0].clone()));
            assert!(entries[0].label.muted);
            assert!(matches!(entries[0].icon, Some(TabIcon::Sparkle)));
            assert!(entries[0].can_close);
            assert!(entries[1].is_active);
            assert_eq!(entries[1].label.text, "Text Thread");
            assert!(!entries[1].label.muted);
            assert!(entries[1].icon.is_none());
        }
        TabBar::TitleEditor(_) => panic!("no title editor is open"),
    }
}

#[test]
fn tab_bar_shows_the_open_title_editor() {
    let mut panel = AgentPanel::new(
        AgentPanelTab::new(ActiveView::TextThread { text_thread_editor: 2, title_editor: 3 }, AgentType::TextThread),
        AgentType::TextThread,
    );
    panel.toggle_active_tab_title_editor(false);
    let titles = vec![String::new()];
    let icons = vec![None];
    assert!(matches!(panel.render_tab_bar(false, &titles, &icons), TabBar::TitleEditor(0)));
    let mut single = AgentPanel::new(AgentPanelTab::new(ActiveView::AgentThread { server_view: 1 }, AgentType::NativeAgent), AgentType::NativeAgent);
    single.toggle_active_tab_title_editor(false);
    match single.render_tab_bar(false, &titles, &icons) {
        TabBar::Tabs(entries) => assert!(!entries[0].can_close),
        TabBar::TitleEditor(_) => panic!("an agent thread without parent has no title editor"),
    }
    assert!(matches!(single.render_tab_bar(true, &titles, &icons), TabBar::TitleEditor(0)));
}

use agent_ui::tab::ActiveView;
use agent_ui::tab::AgentPanelTab;
use agent_ui::tab::AgentPanelTabIdentity;
use agent_ui::tab::AgentType;
use agent_ui::tabs::AgentPanel;
use agent_ui::tabs::PanelEffect;

fn agent_thread(id: u64) -> ActiveView {
    ActiveView::AgentThread { server_view: id }
}

fn text_thread(id: u64) -> ActiveView {
    ActiveView::TextThread { text_thread_editor: id, title_editor: id + 100 }
}

fn custom(name: &str) -> AgentType {
    AgentType::Custom { name: name.to_string() }
}

/// A panel with agent-thread tabs for entity ids 1..=n, the first active.
fn panel_with(n: u64) -> AgentPanel {
    let mut panel = AgentPanel::new(AgentPanelTab::new(agent_thread(1), AgentType::NativeAgent), AgentType::NativeAgent);
    for id in 2..=n {
        panel.tabs.push(AgentPanelTab::new(agent_thread(id), AgentType::NativeAgent));
    }
    panel
}

fn views(panel: &AgentPanel) -> Vec<ActiveView> {
    panel.tabs.iter().map(|t| t.view).collect()
}

#[test]
fn new_panel_has_one_active_tab() {
    let panel = AgentPanel::new(AgentPanelTab::new(text_thread(5), AgentType::TextThread), AgentType::TextThread);
    assert_eq!(views(&panel), vec![text_thread(5)]);
    assert_eq!(panel.active_tab_id, 0);
    assert_eq!(panel.overlay_view, None);
    assert_eq!(panel.title_edit_overlay_tab_id, None);
    assert!(!panel.can_close_tabs());
}

#[test]
fn tab_accessors() {
    let tab = AgentPanelTab::new(agent_thread(4), custom("x"));
    assert_eq!(*tab.view(), agent_thread(4));
    assert!(matches!(tab.agent(), AgentType::Custom { name } if name == "x"));
}

#[test]
fn set_active_switches_and_focuses() {
    let mut panel = panel_with(3);
    panel.overlay_view = Some(ActiveView::History);
    panel.overlay_previous_tab_id = Some(0);
    panel.title_edit_overlay_tab_id = Some(0);
    panel.title_editor_blur_subscribed = true;
    let effects = panel.set_active_tab_by_id(2);
    assert_eq!(effects, vec![PanelEffect::ScrollToTab(2), PanelEffect::FocusTabView(2)]);
    assert_eq!(panel.active_tab_id, 2);
    assert_eq!(panel.overlay_view, None);
    assert_eq!(panel.overlay_previous_tab_id, None);
    assert_eq!(panel.title_edit_overlay_tab_id, None);
    assert!(!panel.title_editor_blur_subscribed);
}

#[test]
fn set_active_follows_the_tab_agent() {
    let mut panel = panel_with(1);
    panel.tabs.push(AgentPanelTab::new(text_thread(9), custom("zeta")));
    let effects = panel.set_active_tab_by_id(1);
    assert_eq!(
        effects,
        vec![PanelEffect::ScrollToTab(1), PanelEffect::Serialize, PanelEffect::FocusTabView(1)]
    );
    assert!(matches!(&panel.selected_agent, AgentType::Custom { name } if name == "zeta"));
}

#[test]
fn set_active_on_a_non_thread_view_focuses_the_panel() {
    let mut panel = panel_with(1);
    panel.tabs.push(AgentPanelTab::new(ActiveView::Uninitialized, AgentType::NativeAgent));
    assert_eq!(panel.set_active_tab_by_id(1), vec![PanelEffect::ScrollToTab(1), PanelEffect::FocusPanel]);
}

#[test]
fn set_active_on_a_missing_tab_is_ignored() {
    let mut panel = panel_with(2);
    panel.title_edit_overlay_tab_id = Some(1);
    assert_eq!(panel.set_active_tab_by_id(2), vec![]);
    assert_eq!(panel.active_tab_id, 0);
    assert_eq!(panel.title_edit_overlay_tab_id, Some(1));
}

#[test]
fn overlay_remembers_the_active_tab() {
    let mut panel = panel_with(2);
    panel.set_active_tab_by_id(1);
    panel.title_edit_overlay_tab_id = Some(1);
    let effects = panel.set_tab_overlay_view(ActiveView::History);
    assert_eq!(effects, vec![PanelEffect::FocusPanel]);
    assert_eq!(panel.overlay_view, Some(ActiveView::History));
    assert_eq!(panel.overlay_previous_tab_id, Some(1));
    assert_eq!(panel.title_edit_overlay_tab_id, None);
    assert_eq!(panel.active_tab_id, 1);
}

#[test]
fn the_last_tab_is_never_removed() {
    let mut panel = panel_with(1);
    assert_eq!(panel.remove_tab_by_id(0), vec![]);
    assert_eq!(panel.tabs.len(), 1);
}

#[test]
fn removing_a_missing_tab_is_ignored() {
    let mut panel = panel_with(3);
    assert_eq!(panel.remove_tab_by_id(3), vec![]);
    assert_eq!(panel.tabs.len(), 3);
}

#[test]
fn removing_a_tab_after_the_active_one_keeps_it() {
    let mut panel = panel_with(3);
    panel.set_active_tab_by_id(1);
    assert_eq!(panel.remove_tab_by_id(2), vec![PanelEffect::ScrollToTab(1)]);
    assert_eq!(views(&panel), vec![agent_thread(1), agent_thread(2)]);
    assert_eq!(panel.active_tab_id, 1);
}

#[test]
fn removing_a_tab_before_the_active_one_shifts_it() {
    let mut panel = panel_with(3);
    panel.set_active_tab_by_id(2);
    let effects = panel.remove_tab_by_id(0);
    assert_eq!(effects, vec![PanelEffect::ScrollToTab(1), PanelEffect::FocusTabView(1)]);
    assert_eq!(views(&panel), vec![agent_thread(2), agent_thread(3)]);
    assert_eq!(panel.active_tab_id, 1);
    assert_eq!(panel.active_tab().view, agent_thread(3));
}

#[test]
fn removing_the_active_tab_activates_the_next() {
    let mut panel = panel_with(3);
    panel.set_active_tab_by_id(1);
    assert_eq!(panel.remove_tab_by_id(1), vec![PanelEffect::ScrollToTab(1)]);
    assert_eq!(views(&panel), vec![agent_thread(1), agent_thread(3)]);
    assert_eq!(panel.active_tab_id, 1);
}

#[test]
fn removing_the_active_last_tab_activates_the_previous() {
    let mut panel = panel_with(3);
    panel.set_active_tab_by_id(2);
    let effects = panel.remove_tab_by_id(2);
    assert_eq!(effects, vec![PanelEffect::ScrollToTab(1), PanelEffect::FocusTabView(1)]);
    assert_eq!(panel.active_tab_id, 1);
}

#[test]
fn removal_moves_or_closes_the_title_editor() {
    let mut panel = panel_with(4);
    panel.set_active_tab_by_id(3);
    panel.title_edit_overlay_tab_id = Some(3);
    panel.title_editor_blur_subscribed = true;
    // Removing a later tab keeps the editor where it is.
    let mut p = panel_with(4);
    p.title_edit_overlay_tab_id = Some(1);
    p.remove_tab_by_id(3);
    assert_eq!(p.title_edit_overlay_tab_id, Some(1));
    // Removing an earlier tab than the edited one moves it down, then
    // switching the active tab closes it.
    panel.remove_tab_by_id(0);
    assert_eq!(panel.title_edit_overlay_tab_id, None);
    // Removing the edited tab itself closes it.
    let mut q = panel_with(3);
    q.title_edit_overlay_tab_id = Some(2);
    q.title_editor_blur_subscribed = true;
    assert_eq!(q.remove_tab_by_id(2), vec![PanelEffect::ScrollToTab(0)]);
    assert_eq!(q.title_edit_overlay_tab_id, None);
    assert!(!q.title_editor_blur_subscribed);
    // The edited tab moves down when an earlier tab goes and the active one stays.
    let mut r = panel_with(3);
    r.title_edit_overlay_tab_id = Some(2);
    assert_eq!(r.remove_tab_by_id(1), vec![PanelEffect::ScrollToTab(0)]);
    assert_eq!(r.title_edit_overlay_tab_id, Some(1));
}

#[test]
fn pushing_a_thread_appends_an_active_tab() {
    let mut panel = panel_with(1);
    let threads = vec![Some("s1".to_string())];
    let effects = panel.push_tab(text_thread(7), AgentType::TextThread, None, &threads);
    assert_eq!(
        effects,
        vec![PanelEffect::ScrollToTab(1), PanelEffect::Serialize, PanelEffect::FocusTabView(1)]
    );
    assert_eq!(views(&panel), vec![agent_thread(1), text_thread(7)]);
    assert_eq!(panel.active_tab_id, 1);
    assert!(matches!(panel.selected_agent, AgentType::TextThread));
}

#[test]
fn pushing_an_open_thread_switches_to_its_tab() {
    let mut panel = panel_with(3);
    let threads = vec![Some("a".to_string()), None, Some("c".to_string())];
    let effects = panel.push_tab(agent_thread(42), AgentType::NativeAgent, Some("c".to_string()), &threads);
    assert_eq!(effects, vec![PanelEffect::ScrollToTab(2), PanelEffect::FocusTabView(2)]);
    assert_eq!(panel.tabs.len(), 3);
    assert_eq!(panel.active_tab_id, 2);
}

#[test]
fn pushing_a_thread_without_session_opens_a_new_tab() {
    let mut panel = panel_with(2);
    let threads = vec![Some("a".to_string()), Some("b".to_string())];
    panel.push_tab(agent_thread(42), AgentType::NativeAgent, None, &threads);
    assert_eq!(panel.tabs.len(), 3);
    assert_eq!(panel.active_tab_id, 2);
}

#[test]
fn pushing_history_or_settings_opens_an_overlay() {
    let mut panel = panel_with(2);
    panel.set_active_tab_by_id(1);
    let threads = vec![None, None];
    assert_eq!(panel.push_tab(ActiveView::History, AgentType::NativeAgent, None, &threads), vec![PanelEffect::FocusPanel]);
    assert_eq!(panel.overlay_view, Some(ActiveView::History));
    assert_eq!(panel.overlay_previous_tab_id, Some(1));
    assert_eq!(panel.tabs.len(), 2);
    panel.push_tab(ActiveView::Configuration, AgentType::NativeAgent, None, &threads);
    assert_eq!(panel.overlay_view, Some(ActiveView::Configuration));
}

#[test]
fn pushing_an_uninitialized_view_is_ignored() {
    let mut panel = panel_with(1);
    assert_eq!(panel.push_tab(ActiveView::Uninitialized, AgentType::NativeAgent, None, &vec![None]), vec![]);
    assert_eq!(panel.tabs.len(), 1);
}

#[test]
fn pushing_carries_out_a_deferred_removal() {
    let mut panel = panel_with(1);
    panel.pending_tab_removal = Some(0);
    let effects = panel.push_tab(agent_thread(2), AgentType::NativeAgent, None, &vec![None]);
    assert_eq!(
        effects,
        vec![
            PanelEffect::ScrollToTab(1),
            PanelEffect::FocusTabView(1),
            PanelEffect::ScrollToTab(0),
            PanelEffect::FocusTabView(0),
        ]
    );
    assert_eq!(views(&panel), vec![agent_thread(2)]);
    assert_eq!(panel.active_tab_id, 0);
    assert_eq!(panel.pending_tab_removal, None);
}

#[test]
fn find_tab_by_identity_finds_the_first_match() {
    let panel = panel_with(3);
    let threads = vec![None, Some("x".to_string()), Some("x".to_string())];
    let id = AgentPanelTabIdentity::AcpThread("x".to_string());
    assert_eq!(panel.find_tab_by_identity(&id, &threads), Some(1));
    let other = AgentPanelTabIdentity::AcpThread("y".to_string());
    assert_eq!(panel.find_tab_by_identity(&other, &threads), None);
}

#[test]
fn text_threads_have_no_identity() {
    let mut panel = panel_with(1);
    panel.tabs.push(AgentPanelTab::new(text_thread(3), AgentType::TextThread));
    let threads = vec![None, Some("x".to_string())];
    let id = AgentPanelTabIdentity::AcpThread("x".to_string());
    assert_eq!(panel.find_tab_by_identity(&id, &threads), None);
}

#[test]
fn tab_view_identity_of_views() {
    assert!(matches!(
        AgentPanel::tab_view_identity(&agent_thread(1), Some("s".to_string())),
        Some(AgentPanelTabIdentity::AcpThread(s)) if s == "s"
    ));
    assert!(AgentPanel::tab_view_identity(&agent_thread(1), None).is_none());
    assert!(AgentPanel::tab_view_identity(&text_thread(1), Some("s".to_string())).is_none());
    assert!(AgentPanel::tab_view_identity(&ActiveView::History, Some("s".to_string())).is_none());
}

#[test]
fn toggling_the_title_editor_opens_and_closes_it() {
    let mut panel = panel_with(2);
    panel.set_active_tab_by_id(1);
    let effects = panel.toggle_active_tab_title_editor(true);
    assert_eq!(effects, vec![PanelEffect::FocusTitleEditor(1)]);
    assert_eq!(panel.title_edit_overlay_tab_id, Some(1));
    assert!(panel.title_editor_blur_subscribed);
    assert!(panel.is_title_editor_active_for_tab(1));
    assert!(!panel.is_title_editor_active_for_tab(0));
    assert_eq!(panel.title_editor_tab(true), Some(1));
    let effects = panel.toggle_active_tab_title_editor(true);
    assert_eq!(effects, vec![PanelEffect::FocusTabView(1)]);
    assert_eq!(panel.title_edit_overlay_tab_id, None);
    assert!(!panel.title_editor_blur_subscribed);
    assert_eq!(panel.title_editor_tab(true), None);
}

#[test]
fn agent_threads_without_parent_have_no_title_editor() {
    let mut panel = panel_with(1);
    assert_eq!(panel.toggle_active_tab_title_editor(false), vec![]);
    assert_eq!(panel.title_edit_overlay_tab_id, Some(0));
    assert!(!panel.title_editor_blur_subscribed);
    assert_eq!(panel.title_editor_tab(false), None);
}

#[test]
fn text_threads_always_have_a_title_editor() {
    let mut panel = AgentPanel::new(AgentPanelTab::new(text_thread(1), AgentType::TextThread), AgentType::TextThread);
    assert_eq!(panel.toggle_active_tab_title_editor(false), vec![PanelEffect::FocusTitleEditor(0)]);
    assert_eq!(panel.title_editor_tab(false), Some(0));
}

#[test]
fn losing_focus_closes_the_title_editor() {
    let mut panel = panel_with(1);
    panel.toggle_active_tab_title_editor(true);
    assert_eq!(panel.title_editor_blurred(), vec![PanelEffect::Notify]);
    assert_eq!(panel.title_edit_overlay_tab_id, None);
    assert!(!panel.title_editor_blur_subscribed);
}

#[test]
fn opening_settings_twice_closes_them() {
    let mut panel = panel_with(2);
    panel.set_active_tab_by_id(1);
    let effects = panel.open_configuration_tab_overlay();
    assert_eq!(
        effects,
        vec![PanelEffect::OpenConfiguration, PanelEffect::FocusPanel, PanelEffect::Notify]
    );
    assert_eq!(panel.overlay_view, Some(ActiveView::Configuration));
    assert_eq!(panel.overlay_previous_tab_id, Some(1));
    let effects = panel.open_configuration_tab_overlay();
    assert_eq!(effects, vec![PanelEffect::Notify]);
    assert_eq!(panel.overlay_view, None);
    assert_eq!(panel.overlay_previous_tab_id, None);
    assert_eq!(panel.active_tab_id, 1);
    assert_eq!(panel.tabs.len(), 2);
}

#[test]
fn clicking_tabs() {
    let mut panel = panel_with(2);
    assert_eq!(
        panel.tab_clicked(1, true),
        vec![PanelEffect::ScrollToTab(1), PanelEffect::FocusTabView(1), PanelEffect::Notify]
    );
    assert_eq!(panel.active_tab_id, 1);
    assert_eq!(panel.tab_clicked(1, true), vec![PanelEffect::FocusTitleEditor(1), PanelEffect::Notify]);
    assert_eq!(panel.title_edit_overlay_tab_id, Some(1));
    assert_eq!(
        panel.close_clicked(0),
        vec![PanelEffect::ScrollToTab(0), PanelEffect::FocusTabView(0), PanelEffect::Notify]
    );
    assert_eq!(panel.tabs.len(), 1);
    assert_eq!(panel.close_clicked(0), vec![PanelEffect::Notify]);
    assert_eq!(panel.tabs.len(), 1);
}

#[test]
fn active_tab_falls_back_to_the_first() {
    let mut panel = panel_with(2);
    panel.set_active_tab_by_id(1);
    assert_eq!(panel.active_tab().view, agent_thread(2));
    assert_eq!(panel.active_view(), Some(&agent_thread(2)));
    panel.active_tab_id = 7;
    assert_eq!(panel.active_tab().view, agent_thread(1));
    assert_eq!(panel.active_view(), None);
}

#[test]
fn active_tab_mut_changes_only_the_active_tab() {
    let mut panel = panel_with(2);
    panel.set_active_tab_by_id(1);
    panel.active_tab_mut().view = ActiveView::History;
    assert_eq!(views(&panel), vec![agent_thread(1), ActiveView::History]);
    panel.active_tab_id = 9;
    panel.active_tab_mut().agent = custom("z");
    assert!(matches!(&panel.tabs[0].agent, AgentType::Custom { name } if name == "z"));
    assert_eq!(panel.active_tab_id, 9);
}

#[test]
fn agents_compare_by_name() {
    assert!(AgentType::NativeAgent.is_same(&AgentType::NativeAgent));
    assert!(!AgentType::NativeAgent.is_same(&AgentType::TextThread));
    assert!(custom("a").is_same(&custom("a")));
    assert!(!custom("a").is_same(&custom("b")));
    assert!(matches!(custom("q").duplicate(), AgentType::Custom { name } if name == "q"));
}

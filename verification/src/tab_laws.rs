//! Properties of the agent panel's tab management that hold across
//! operations.

use vstd::prelude::*;

use crate::tab::ActiveView;
use crate::tab::AgentPanelTab;
use crate::tab::AgentPanelTabIdentity;
use crate::tab::AgentType;
use crate::tab::TabId;
use crate::tab::same_agent;
use crate::tabs::PanelEffect;
use crate::tabs::PanelState;
use crate::tabs::editing_title_tab;
use crate::tabs::existing_tab;
use crate::tabs::first_with_identity;
use crate::tabs::has_identity;
use crate::tabs::identity_of;
use crate::tabs::open_configuration_spec;
use crate::tabs::overlay_spec;
use crate::tabs::panel_wf;
use crate::tabs::push_spec;
use crate::tabs::remove_spec;
use crate::tabs::set_active_spec;
use crate::tabs::tab_click_spec;
use crate::tabs::toggle_title_spec;

verus! {

/// Making a tab active keeps the panel well formed.
pub proof fn set_active_preserves_wf(s: PanelState, id: TabId)
    requires
        panel_wf(s),
    ensures
        panel_wf(set_active_spec(s, id).0),
{
}

/// Removing a tab keeps the panel well formed; in particular the last tab is
/// never removed.
pub proof fn remove_preserves_wf(s: PanelState, id: TabId)
    requires
        panel_wf(s),
    ensures
        panel_wf(remove_spec(s, id).0),
{
}

/// Showing an overlay keeps the panel well formed and leaves the tabs and the
/// active tab alone.
pub proof fn overlay_preserves_wf(s: PanelState, view: ActiveView)
    requires
        panel_wf(s),
    ensures
        panel_wf(overlay_spec(s, view).0),
        overlay_spec(s, view).0.tabs == s.tabs,
        overlay_spec(s, view).0.active_tab_id == s.active_tab_id,
{
}

/// Opening a view keeps the panel well formed.
pub proof fn push_preserves_wf(
    s: PanelState,
    view: ActiveView,
    agent: AgentType,
    view_thread: Option<String>,
    active_threads: Seq<Option<String>>,
)
    requires
        panel_wf(s),
        s.tabs.len() < usize::MAX,
        active_threads.len() == s.tabs.len(),
    ensures
        panel_wf(
            push_spec(s, view, agent, existing_tab(s, identity_of(view, view_thread), active_threads)).0,
        ),
{
    let existing = existing_tab(s, identity_of(view, view_thread), active_threads);
    if let Some(i) = identity_of(view, view_thread) {
        first_with_identity_is_first(s.tabs, active_threads, i, s.tabs.len());
    }
    if existing is None && view.is_thread_view() {
        let s1 = PanelState { tabs: s.tabs.push(AgentPanelTab { view, agent }), ..s };
        let s2 = set_active_spec(s1, (s1.tabs.len() - 1) as TabId).0;
        if let Some(p) = s2.pending_tab_removal {
            if s2.tabs.len() > 1 {
                remove_preserves_wf(PanelState { pending_tab_removal: None, ..s2 }, p);
            }
        }
    }
}

/// Toggling the title editor keeps the panel well formed.
pub proof fn toggle_preserves_wf(s: PanelState, agent_has_parent_thread: bool)
    requires
        panel_wf(s),
    ensures
        panel_wf(toggle_title_spec(s, agent_has_parent_thread).0),
{
}

/// Opening or closing the settings keeps the panel well formed.
pub proof fn open_configuration_preserves_wf(s: PanelState)
    requires
        panel_wf(s),
    ensures
        panel_wf(open_configuration_spec(s).0),
{
}

/// A click on a tab keeps the panel well formed.
pub proof fn tab_click_preserves_wf(s: PanelState, index: TabId, agent_has_parent_thread: bool)
    requires
        panel_wf(s),
    ensures
        panel_wf(tab_click_spec(s, index, agent_has_parent_thread).0),
{
}

/// The identity search finds the first tab that has the identity, and finds
/// nothing only when no tab has it.
pub proof fn first_with_identity_is_first(
    tabs: Seq<AgentPanelTab>,
    active_threads: Seq<Option<String>>,
    identity: AgentPanelTabIdentity,
    n: nat,
)
    requires
        n <= tabs.len(),
        n <= active_threads.len(),
        n <= usize::MAX,
    ensures
        first_with_identity(tabs, active_threads, identity, n) matches Some(i) ==> {
            &&& i < n
            &&& has_identity(tabs[i as int].view, active_threads[i as int], identity)
            &&& forall|j: int|
                0 <= j < i ==> !has_identity(#[trigger] tabs[j].view, active_threads[j], identity)
        },
        first_with_identity(tabs, active_threads, identity, n) is None ==> forall|j: int|
            0 <= j < n ==> !has_identity(#[trigger] tabs[j].view, active_threads[j], identity),
    decreases n,
{
    if n > 0 {
        first_with_identity_is_first(tabs, active_threads, identity, (n - 1) as nat);
    }
}

/// Making an existing tab active makes the selected agent that tab's agent.
pub proof fn set_active_selects_tab_agent(s: PanelState, id: TabId)
    requires
        id < s.tabs.len(),
    ensures
        set_active_spec(s, id).0.active_tab_id == id,
        same_agent(set_active_spec(s, id).0.selected_agent, s.tabs[id as int].agent),
        set_active_spec(s, id).0.overlay_view is None,
        set_active_spec(s, id).0.title_edit_overlay_tab_id is None,
{
    let a = s.tabs[id as int].agent;
    if let AgentType::Custom { name } = a {
        assert(name@ == name@);
    }
}

/// Making a tab that does not exist active changes nothing and asks for
/// nothing.
pub proof fn set_active_missing_tab_is_noop(s: PanelState, id: TabId)
    requires
        id >= s.tabs.len(),
    ensures
        set_active_spec(s, id).0 == s,
        set_active_spec(s, id).1.len() == 0,
{
}

/// Removing a tab other than the active one keeps the same tab active, drops
/// exactly the removed tab, and keeps the others in order.
pub proof fn remove_other_keeps_active_tab(s: PanelState, id: TabId)
    requires
        panel_wf(s),
        s.tabs.len() > 1,
        id < s.tabs.len(),
        id != s.active_tab_id,
    ensures
        remove_spec(s, id).0.tabs == s.tabs.remove(id as int),
        remove_spec(s, id).0.tabs[remove_spec(s, id).0.active_tab_id as int] == s.tabs[s.active_tab_id as int],
{
}

/// Removing the active tab hands the active place to the tab that followed
/// it, or to the new last tab when it was the last one.
pub proof fn remove_active_moves_to_neighbour(s: PanelState)
    requires
        panel_wf(s),
        s.tabs.len() > 1,
    ensures
        ({
            let id = s.active_tab_id;
            let r = remove_spec(s, id).0;
            &&& r.tabs == s.tabs.remove(id as int)
            &&& id + 1 < s.tabs.len() ==> r.active_tab_id == id && r.tabs[id as int] == s.tabs[id + 1]
            &&& id + 1 == s.tabs.len() ==> r.active_tab_id == id - 1 && r.tabs[id - 1] == s.tabs[id - 1]
        }),
{
}

/// After a removal, a title editor that is still open edits the same tab as
/// before.
pub proof fn remove_keeps_title_editor_on_its_tab(s: PanelState, id: TabId)
    requires
        panel_wf(s),
    ensures
        remove_spec(s, id).0.title_edit_overlay_tab_id matches Some(e2) ==> (
        s.title_edit_overlay_tab_id matches Some(e) && remove_spec(s, id).0.tabs[e2 as int] == s.tabs[e as int]),
{
}

/// Removing a tab that does not exist, or the only tab, changes nothing.
pub proof fn remove_refused_is_noop(s: PanelState, id: TabId)
    requires
        s.tabs.len() == 1 || id >= s.tabs.len(),
    ensures
        remove_spec(s, id).0 == s,
        remove_spec(s, id).1.len() == 0,
{
}

/// Opening a thread view that no tab shows yet, with no removal pending,
/// appends it as the new last tab and makes it active.
pub proof fn push_new_thread_appends_active_tab(s: PanelState, view: ActiveView, agent: AgentType)
    requires
        view.is_thread_view(),
        s.pending_tab_removal is None,
        s.tabs.len() < usize::MAX,
    ensures
        push_spec(s, view, agent, None).0.tabs == s.tabs.push(AgentPanelTab { view, agent }),
        push_spec(s, view, agent, None).0.active_tab_id == s.tabs.len(),
{
}

/// Opening an uninitialized view that no tab shows changes nothing: such
/// views never become tabs.
pub proof fn push_uninitialized_is_noop(s: PanelState, agent: AgentType)
    ensures
        push_spec(s, ActiveView::Uninitialized, agent, None).0 == s,
        push_spec(s, ActiveView::Uninitialized, agent, None).1.len() == 0,
{
}

/// Opening a view that a tab already shows switches to that tab and opens no
/// new one.
pub proof fn push_existing_switches(
    s: PanelState,
    view: ActiveView,
    agent: AgentType,
    view_thread: Option<String>,
    active_threads: Seq<Option<String>>,
)
    requires
        active_threads.len() == s.tabs.len(),
        s.tabs.len() <= usize::MAX,
        existing_tab(s, identity_of(view, view_thread), active_threads) is Some,
    ensures
        ({
            let e = existing_tab(s, identity_of(view, view_thread), active_threads)->0;
            let r = push_spec(s, view, agent, Some(e)).0;
            &&& r.tabs == s.tabs
            &&& r.active_tab_id == e
            &&& has_identity(s.tabs[e as int].view, active_threads[e as int], identity_of(view, view_thread)->0)
        }),
{
    first_with_identity_is_first(s.tabs, active_threads, identity_of(view, view_thread)->0, s.tabs.len());
}

/// Opening the settings twice from a panel that does not show them leaves no
/// overlay and the tabs as they were.
pub proof fn open_configuration_twice_closes(s: PanelState)
    requires
        s.overlay_view != Some(ActiveView::Configuration),
    ensures
        ({
            let r = open_configuration_spec(open_configuration_spec(s).0).0;
            &&& r.overlay_view is None
            &&& r.overlay_previous_tab_id is None
            &&& r.tabs == s.tabs
            &&& r.active_tab_id == s.active_tab_id
            &&& r.title_edit_overlay_tab_id is None
        }),
{
}

/// Toggling the title editor twice, starting closed, opens it for the active
/// tab and then closes it again, leaving the tabs alone.
pub proof fn toggle_title_twice_closes(s: PanelState, agent_has_parent_thread: bool)
    requires
        panel_wf(s),
        s.title_edit_overlay_tab_id is None,
    ensures
        toggle_title_spec(s, agent_has_parent_thread).0.title_edit_overlay_tab_id == Some(s.active_tab_id),
        ({
            let r = toggle_title_spec(toggle_title_spec(s, agent_has_parent_thread).0, agent_has_parent_thread).0;
            &&& r.title_edit_overlay_tab_id is None
            &&& !r.title_editor_blur_subscribed
            &&& r.tabs == s.tabs
            &&& r.active_tab_id == s.active_tab_id
        }),
{
}

/// While the title editor of a tab with a title editor is open, it is shown
/// in place of the tab bar.
pub proof fn open_title_editor_is_shown(s: PanelState, agent_has_parent_thread: bool)
    requires
        panel_wf(s),
        s.title_edit_overlay_tab_id is None,
        agent_has_parent_thread || s.tabs[s.active_tab_id as int].view is TextThread,
        s.tabs[s.active_tab_id as int].view.is_thread_view(),
    ensures
        editing_title_tab(toggle_title_spec(s, agent_has_parent_thread).0, agent_has_parent_thread)
            == Some(s.active_tab_id),
{
}

/// Making an existing tab active, whether or not it is already the active
/// one: it becomes the active tab, the overlay closes and forgets the tab it
/// came from, the title editor closes, the tabs and the deferred removal stay
/// as they are, and the effects are: scroll to the tab, persist the panel
/// exactly when the selected agent changes, then focus the tab's thread view
/// (or the panel for another view).
pub proof fn switching_to_a_tab(s: PanelState, id: TabId)
    requires
        id < s.tabs.len(),
    ensures
        ({
            let (r, effects) = set_active_spec(s, id);
            let tab = s.tabs[id as int];
            let changed = match (s.selected_agent, tab.agent) {
                (AgentType::NativeAgent, AgentType::NativeAgent) => false,
                (AgentType::TextThread, AgentType::TextThread) => false,
                (AgentType::Custom { name: a }, AgentType::Custom { name: b }) => a@ != b@,
                _ => true,
            };
            &&& r.active_tab_id == id
            &&& r.overlay_view is None
            &&& r.overlay_previous_tab_id is None
            &&& r.title_edit_overlay_tab_id is None
            &&& !r.title_editor_blur_subscribed
            &&& r.tabs == s.tabs
            &&& r.pending_tab_removal == s.pending_tab_removal
            &&& (changed ==> r.selected_agent == tab.agent)
            &&& (!changed ==> r.selected_agent == s.selected_agent)
            &&& effects.len() == if changed { 3int } else { 2int }
            &&& effects[0] == PanelEffect::ScrollToTab(id)
            &&& (changed ==> effects[1] == PanelEffect::Serialize)
            &&& effects.last() == if tab.view is AgentThread || tab.view is TextThread {
                PanelEffect::FocusTabView(id)
            } else {
                PanelEffect::FocusPanel
            }
        }),
{
}

/// Opening a view whose identity matches an existing tab `e` is exactly
/// switching to `e`, also when `e` is already the active tab: the overlay
/// closes (so the thread shows instead of, say, the history), the title
/// editor closes, no tab is added, and the effects scroll to `e` first and
/// focus `e`'s view last.
pub proof fn opening_an_open_thread_shows_its_tab(
    s: PanelState,
    view: ActiveView,
    agent: AgentType,
    view_thread: Option<String>,
    active_threads: Seq<Option<String>>,
)
    requires
        active_threads.len() == s.tabs.len(),
        s.tabs.len() <= usize::MAX,
        existing_tab(s, identity_of(view, view_thread), active_threads) is Some,
    ensures
        ({
            let e = existing_tab(s, identity_of(view, view_thread), active_threads)->0;
            let (r, effects) = push_spec(s, view, agent, Some(e));
            &&& e < s.tabs.len()
            &&& s.tabs[e as int].view is AgentThread
            &&& r.active_tab_id == e
            &&& r.tabs == s.tabs
            &&& r.overlay_view is None
            &&& r.overlay_previous_tab_id is None
            &&& r.title_edit_overlay_tab_id is None
            &&& effects.len() >= 2
            &&& effects[0] == PanelEffect::ScrollToTab(e)
            &&& effects.last() == PanelEffect::FocusTabView(e)
        }),
{
    first_with_identity_is_first(s.tabs, active_threads, identity_of(view, view_thread)->0, s.tabs.len());
    let e = existing_tab(s, identity_of(view, view_thread), active_threads)->0;
    switching_to_a_tab(s, e);
}

/// Opening history or settings shows them as the overlay over the unchanged
/// tabs, remembering the active tab, closing the title editor, and focusing
/// the panel.
pub proof fn opening_history_or_settings_shows_an_overlay(s: PanelState, view: ActiveView, agent: AgentType)
    requires
        view is History || view is Configuration,
    ensures
        ({
            let (r, effects) = push_spec(s, view, agent, None);
            &&& r.overlay_view == Some(view)
            &&& r.overlay_previous_tab_id == Some(s.active_tab_id)
            &&& r.active_tab_id == s.active_tab_id
            &&& r.tabs == s.tabs
            &&& r.title_edit_overlay_tab_id is None
            &&& effects == seq![PanelEffect::FocusPanel]
        }),
{
}

/// Closing an open title editor: it closes, and when the active tab shows a
/// thread (agent thread or text thread) exactly that thread's view gets focus
/// back; for any other view nothing gets focus. Tabs, active tab and overlay
/// are unchanged.
pub proof fn closing_the_title_editor_refocuses_the_thread(s: PanelState, agent_has_parent_thread: bool)
    requires
        s.title_edit_overlay_tab_id is Some,
    ensures
        ({
            let (r, effects) = toggle_title_spec(s, agent_has_parent_thread);
            let shows_thread = s.active_tab_id < s.tabs.len() && (s.tabs[s.active_tab_id as int].view is AgentThread
                || s.tabs[s.active_tab_id as int].view is TextThread);
            &&& r.title_edit_overlay_tab_id is None
            &&& !r.title_editor_blur_subscribed
            &&& r.tabs == s.tabs
            &&& r.active_tab_id == s.active_tab_id
            &&& r.overlay_view == s.overlay_view
            &&& (shows_thread ==> effects == seq![PanelEffect::FocusTabView(s.active_tab_id)])
            &&& (!shows_thread ==> effects.len() == 0)
        }),
{
}

/// Opening the title editor of the active tab: it opens for that tab; a text
/// thread, or an agent thread with a parent thread, focuses its title editor
/// and watches it; any other tab gets no focus. Tabs, active tab and overlay
/// are unchanged.
pub proof fn opening_the_title_editor_focuses_it(s: PanelState, agent_has_parent_thread: bool)
    requires
        s.title_edit_overlay_tab_id is None,
        s.active_tab_id < s.tabs.len(),
    ensures
        ({
            let (r, effects) = toggle_title_spec(s, agent_has_parent_thread);
            let view = s.tabs[s.active_tab_id as int].view;
            let editable = view is TextThread || (view is AgentThread && agent_has_parent_thread);
            &&& r.title_edit_overlay_tab_id == Some(s.active_tab_id)
            &&& r.tabs == s.tabs
            &&& r.active_tab_id == s.active_tab_id
            &&& r.overlay_view == s.overlay_view
            &&& (editable ==> effects == seq![PanelEffect::FocusTitleEditor(s.active_tab_id)] && r.title_editor_blur_subscribed)
            &&& (!editable ==> effects.len() == 0)
        }),
{
}

/// Opening the settings: when they already show as the overlay, the overlay
/// closes and the panel redraws; otherwise the configuration view is built,
/// shown as the overlay over the unchanged tabs (remembering the active tab),
/// the panel takes focus, and the panel redraws.
pub proof fn opening_settings_toggles_them(s: PanelState)
    ensures
        ({
            let (r, effects) = open_configuration_spec(s);
            &&& r.tabs == s.tabs
            &&& r.active_tab_id == s.active_tab_id
            &&& (s.overlay_view == Some(ActiveView::Configuration) ==> r.overlay_view is None
                && r.overlay_previous_tab_id is None && effects == seq![PanelEffect::Notify])
            &&& (s.overlay_view != Some(ActiveView::Configuration) ==> r.overlay_view == Some(ActiveView::Configuration)
                && r.overlay_previous_tab_id == Some(s.active_tab_id) && r.title_edit_overlay_tab_id is None
                && effects == seq![PanelEffect::OpenConfiguration, PanelEffect::FocusPanel, PanelEffect::Notify])
        }),
{
}

/// Removing tab `id` when allowed drops exactly that tab (one tab fewer, the
/// others in order); when refused (it is the last tab, or does not exist)
/// nothing changes and nothing happens.
pub proof fn removal_drops_exactly_one_tab(s: PanelState, id: TabId)
    requires
        panel_wf(s),
    ensures
        s.tabs.len() > 1 && id < s.tabs.len() ==> remove_spec(s, id).0.tabs == s.tabs.remove(id as int)
            && remove_spec(s, id).0.tabs.len() == s.tabs.len() - 1 && remove_spec(s, id).1.len() >= 1,
        !(s.tabs.len() > 1 && id < s.tabs.len()) ==> remove_spec(s, id).0 == s && remove_spec(s, id).1.len() == 0,
{
}

/// A click on a tab: a click on another existing tab switches to it, a click
/// on the active tab opens or closes its title editor; either way the panel
/// redraws last.
pub proof fn clicking_a_tab(s: PanelState, index: TabId, agent_has_parent_thread: bool)
    ensures
        ({
            let (r, effects) = tab_click_spec(s, index, agent_has_parent_thread);
            &&& effects.len() >= 1
            &&& effects.last() == PanelEffect::Notify
            &&& (index != s.active_tab_id && index < s.tabs.len() ==> r.active_tab_id == index && r.overlay_view is None)
            &&& (index == s.active_tab_id ==> r.active_tab_id == s.active_tab_id && r.tabs == s.tabs
                && (r.title_edit_overlay_tab_id is Some <==> s.title_edit_overlay_tab_id is None)
                || s.active_tab_id >= s.tabs.len())
        }),
{
}

} // verus!

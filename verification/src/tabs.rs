//! Tab management of the agent panel: which tabs are open, which one is
//! active, the overlay shown above them and the title editor.
//!
//! Every operation updates the panel's state and returns the UI effects it
//! asks for (scrolling, focusing, persisting the selected agent), in order.

use vstd::prelude::*;

use crate::tab::ActiveView;
use crate::tab::AgentPanelTab;
use crate::tab::AgentType;
use crate::tab::TabId;
use crate::tab::AgentPanelTabIdentity;
use crate::tab::same_agent;
use crate::tab::same_identity;

verus! {

/// What an operation asks the UI to do, in the order it must happen.
#[derive(Clone, Copy, PartialEq, Eq, Structural, Debug)]
pub enum PanelEffect {
    /// Scroll the tab bar so that this tab is visible.
    ScrollToTab(TabId),
    /// Persist the panel (its selected agent changed).
    Serialize,
    /// Focus the editor of the view shown in this tab.
    FocusTabView(TabId),
    /// Focus the panel itself.
    FocusPanel,
    /// Focus the title editor of this tab and watch it for losing focus.
    FocusTitleEditor(TabId),
    /// Build the configuration view, subscribe to its events and focus it.
    OpenConfiguration,
    /// Redraw the panel.
    Notify,
}

/// The tab-related state of the agent panel.
#[derive(Debug)]
pub struct AgentPanel {
    pub tabs: Vec<AgentPanelTab>,
    pub active_tab_id: TabId,
    /// A view shown above the tabs (history or settings), if any.
    pub overlay_view: Option<ActiveView>,
    /// The tab that was active when the overlay opened.
    pub overlay_previous_tab_id: Option<TabId>,
    /// The tab whose title is being edited, if any.
    pub title_edit_overlay_tab_id: Option<TabId>,
    /// Whether the title editor is watched for losing focus.
    pub title_editor_blur_subscribed: bool,
    /// A tab whose removal was deferred because it was the only one.
    pub pending_tab_removal: Option<TabId>,
    pub selected_agent: AgentType,
}

/// The panel's state as a mathematical value.
#[verifier::ext_equal]
pub struct PanelState {
    pub tabs: Seq<AgentPanelTab>,
    pub active_tab_id: TabId,
    pub overlay_view: Option<ActiveView>,
    pub overlay_previous_tab_id: Option<TabId>,
    pub title_edit_overlay_tab_id: Option<TabId>,
    pub title_editor_blur_subscribed: bool,
    pub pending_tab_removal: Option<TabId>,
    pub selected_agent: AgentType,
}

impl View for AgentPanel {
    type V = PanelState;

    open spec fn view(&self) -> PanelState {
        PanelState {
            tabs: self.tabs@,
            active_tab_id: self.active_tab_id,
            overlay_view: self.overlay_view,
            overlay_previous_tab_id: self.overlay_previous_tab_id,
            title_edit_overlay_tab_id: self.title_edit_overlay_tab_id,
            title_editor_blur_subscribed: self.title_editor_blur_subscribed,
            pending_tab_removal: self.pending_tab_removal,
            selected_agent: self.selected_agent,
        }
    }
}

/// A well-formed panel has at least one tab, its active tab exists, and so
/// does the tab whose title is being edited.
pub open spec fn panel_wf(s: PanelState) -> bool {
    &&& 1 <= s.tabs.len() <= usize::MAX
    &&& s.active_tab_id < s.tabs.len()
    &&& (s.title_edit_overlay_tab_id matches Some(e) ==> e < s.tabs.len())
}

/// What gets focus when a tab showing `view` becomes active.
pub open spec fn focus_for(view: ActiveView, id: TabId) -> PanelEffect {
    if view.is_thread_view() {
        PanelEffect::FocusTabView(id)
    } else {
        PanelEffect::FocusPanel
    }
}

/// Making tab `id` active: the overlay and the title editor close, the tab bar
/// scrolls to it, the selected agent follows the tab's agent (persisting the
/// panel when it changes), and the tab's view takes focus. An id without a
/// tab changes nothing.
pub open spec fn set_active_spec(s: PanelState, id: TabId) -> (PanelState, Seq<PanelEffect>) {
    if id >= s.tabs.len() {
        (s, Seq::empty())
    } else {
        let tab = s.tabs[id as int];
        let changed = !same_agent(s.selected_agent, tab.agent);
        (
            PanelState {
                active_tab_id: id,
                overlay_view: None,
                overlay_previous_tab_id: None,
                title_edit_overlay_tab_id: None,
                title_editor_blur_subscribed: false,
                selected_agent: if changed { tab.agent } else { s.selected_agent },
                ..s
            },
            seq![PanelEffect::ScrollToTab(id)]
                + (if changed { seq![PanelEffect::Serialize] } else { Seq::empty() })
                + seq![focus_for(tab.view, id)],
        )
    }
}

/// Showing `view` as an overlay: the title editor closes, the active tab is
/// remembered, and the panel takes focus.
pub open spec fn overlay_spec(s: PanelState, view: ActiveView) -> (PanelState, Seq<PanelEffect>) {
    (
        PanelState {
            title_edit_overlay_tab_id: None,
            title_editor_blur_subscribed: false,
            overlay_previous_tab_id: Some(s.active_tab_id),
            overlay_view: Some(view),
            ..s
        },
        seq![PanelEffect::FocusPanel],
    )
}

/// Where the active tab goes when tab `id` is removed.
pub open spec fn active_after_removal(active: TabId, id: TabId, remaining: nat) -> TabId {
    if active == id {
        if id <= remaining - 1 { id } else { (remaining - 1) as TabId }
    } else if active > id {
        (active - 1) as TabId
    } else {
        active
    }
}

/// Where the title editor goes when tab `id` is removed.
pub open spec fn edit_after_removal(edit: Option<TabId>, id: TabId) -> Option<TabId> {
    match edit {
        Some(e) => if e == id {
            None
        } else if e > id {
            Some((e - 1) as TabId)
        } else {
            Some(e)
        },
        None => None,
    }
}

/// Removing tab `id`. The last tab is never removed, nor is an id without a
/// tab. The tabs after it move down by one; the active tab stays the same
/// tab when another one is removed, and when the active tab itself is
/// removed its place goes to the tab that followed it (or the new last tab).
/// The title editor closes if it edited the removed tab.
pub open spec fn remove_spec(s: PanelState, id: TabId) -> (PanelState, Seq<PanelEffect>) {
    if s.tabs.len() == 1 || id >= s.tabs.len() {
        (s, Seq::empty())
    } else {
        let tabs = s.tabs.remove(id as int);
        let new_id = active_after_removal(s.active_tab_id, id, tabs.len());
        let s1 = PanelState {
            tabs: tabs,
            title_edit_overlay_tab_id: edit_after_removal(s.title_edit_overlay_tab_id, id),
            title_editor_blur_subscribed: if s.title_edit_overlay_tab_id == Some(id) {
                false
            } else {
                s.title_editor_blur_subscribed
            },
            ..s
        };
        if new_id == s.active_tab_id {
            (s1, seq![PanelEffect::ScrollToTab(new_id)])
        } else {
            set_active_spec(s1, new_id)
        }
    }
}

/// The identity of a view: an agent thread is identified by the session of
/// its active thread (`active_thread`), when it has one; other views have none.
pub open spec fn identity_of(view: ActiveView, active_thread: Option<String>) -> Option<
    AgentPanelTabIdentity,
> {
    match view {
        ActiveView::AgentThread { .. } => match active_thread {
            Some(id) => Some(AgentPanelTabIdentity::AcpThread(id)),
            None => None,
        },
        _ => None,
    }
}

/// Whether a tab showing `view`, whose active thread is `active_thread`, has
/// the given identity.
pub open spec fn has_identity(
    view: ActiveView,
    active_thread: Option<String>,
    identity: AgentPanelTabIdentity,
) -> bool {
    match identity_of(view, active_thread) {
        Some(i) => same_identity(i, identity),
        None => false,
    }
}

/// The first of the first `n` tabs that has `identity`.
pub open spec fn first_with_identity(
    tabs: Seq<AgentPanelTab>,
    active_threads: Seq<Option<String>>,
    identity: AgentPanelTabIdentity,
    n: nat,
) -> Option<TabId>
    decreases n,
{
    if n == 0 {
        None
    } else {
        match first_with_identity(tabs, active_threads, identity, (n - 1) as nat) {
            Some(i) => Some(i),
            None => if has_identity(
                tabs[n - 1].view,
                active_threads[n - 1],
                identity,
            ) {
                Some((n - 1) as TabId)
            } else {
                None
            },
        }
    }
}

/// The tab that opening a view with identity `identity` switches to, if any.
pub open spec fn existing_tab(
    s: PanelState,
    identity: Option<AgentPanelTabIdentity>,
    active_threads: Seq<Option<String>>,
) -> Option<TabId> {
    match identity {
        Some(i) => first_with_identity(s.tabs, active_threads, i, s.tabs.len()),
        None => None,
    }
}

/// Opening `view` for `agent` when `existing` is the tab that already shows
/// it: switch to that tab. Otherwise a thread view becomes a new last tab and
/// is made active, after which a deferred tab removal is carried out if there
/// is more than one tab; history and settings open as an overlay; an
/// uninitialized view is ignored.
pub open spec fn push_spec(
    s: PanelState,
    view: ActiveView,
    agent: AgentType,
    existing: Option<TabId>,
) -> (PanelState, Seq<PanelEffect>) {
    match existing {
        Some(e) => set_active_spec(s, e),
        None => if view.is_thread_view() {
            let s1 = PanelState { tabs: s.tabs.push(AgentPanelTab { view, agent }), ..s };
            let (s2, e2) = set_active_spec(s1, (s1.tabs.len() - 1) as TabId);
            match s2.pending_tab_removal {
                Some(p) => if s2.tabs.len() > 1 {
                    let (s3, e3) = remove_spec(PanelState { pending_tab_removal: None, ..s2 }, p);
                    (s3, e2 + e3)
                } else {
                    (s2, e2)
                },
                None => (s2, e2),
            }
        } else if view is History || view is Configuration {
            overlay_spec(s, view)
        } else {
            (s, Seq::empty())
        },
    }
}

/// Whether a tab showing `view` has a title editor; for an agent thread that
/// depends on whether it has a parent thread (`agent_has_parent_thread`).
pub open spec fn has_title_editor(view: ActiveView, agent_has_parent_thread: bool) -> bool {
    match view {
        ActiveView::TextThread { .. } => true,
        ActiveView::AgentThread { .. } => agent_has_parent_thread,
        _ => false,
    }
}

/// Toggling the title editor of the active tab. When it is open it closes and
/// the tab's view takes focus back; otherwise it opens for the active tab,
/// taking focus when the tab has a title editor.
pub open spec fn toggle_title_spec(s: PanelState, agent_has_parent_thread: bool) -> (
    PanelState,
    Seq<PanelEffect>,
) {
    if s.title_edit_overlay_tab_id is Some {
        (
            PanelState {
                title_edit_overlay_tab_id: None,
                title_editor_blur_subscribed: false,
                ..s
            },
            if s.active_tab_id < s.tabs.len() && s.tabs[s.active_tab_id as int].view.is_thread_view() {
                seq![PanelEffect::FocusTabView(s.active_tab_id)]
            } else {
                Seq::empty()
            },
        )
    } else if s.active_tab_id < s.tabs.len() {
        let editable = has_title_editor(s.tabs[s.active_tab_id as int].view, agent_has_parent_thread);
        (
            PanelState {
                title_edit_overlay_tab_id: Some(s.active_tab_id),
                title_editor_blur_subscribed: if editable { true } else { s.title_editor_blur_subscribed },
                ..s
            },
            if editable { seq![PanelEffect::FocusTitleEditor(s.active_tab_id)] } else { Seq::empty() },
        )
    } else {
        (s, Seq::empty())
    }
}

/// Opening the settings: when they already show as the overlay they close;
/// otherwise the configuration view is built and opened like any view.
pub open spec fn open_configuration_spec(s: PanelState) -> (PanelState, Seq<PanelEffect>) {
    if s.overlay_view == Some(ActiveView::Configuration) {
        (
            PanelState { overlay_view: None, overlay_previous_tab_id: None, ..s },
            seq![PanelEffect::Notify],
        )
    } else {
        let (s1, e1) = push_spec(s, ActiveView::Configuration, s.selected_agent, None);
        (s1, seq![PanelEffect::OpenConfiguration] + e1 + seq![PanelEffect::Notify])
    }
}

/// Clicking tab `index`: the active tab toggles its title editor, another
/// tab becomes active.
pub open spec fn tab_click_spec(s: PanelState, index: TabId, agent_has_parent_thread: bool) -> (
    PanelState,
    Seq<PanelEffect>,
) {
    let (s1, e1) = if s.active_tab_id == index {
        toggle_title_spec(s, agent_has_parent_thread)
    } else {
        set_active_spec(s, index)
    };
    (s1, e1 + seq![PanelEffect::Notify])
}

/// The tab whose title editor is shown in place of the tab bar, if any.
pub open spec fn editing_title_tab(s: PanelState, agent_has_parent_thread: bool) -> Option<TabId> {
    match s.title_edit_overlay_tab_id {
        Some(e) => if e < s.tabs.len() && has_title_editor(s.tabs[e as int].view, agent_has_parent_thread) {
            Some(e)
        } else {
            None
        },
        None => None,
    }
}

impl AgentPanel {
    /// A panel with a single tab, which is active.
    pub fn new(first_tab: AgentPanelTab, selected_agent: AgentType) -> (panel: Self)
        ensures
            panel@.tabs == seq![first_tab],
            panel@.active_tab_id == 0,
            panel@.overlay_view is None,
            panel@.overlay_previous_tab_id is None,
            panel@.title_edit_overlay_tab_id is None,
            !panel@.title_editor_blur_subscribed,
            panel@.pending_tab_removal is None,
            panel@.selected_agent == selected_agent,
            panel_wf(panel@),
    {
        let mut tabs = Vec::new();
        tabs.push(first_tab);
        AgentPanel {
            tabs,
            active_tab_id: 0,
            overlay_view: None,
            overlay_previous_tab_id: None,
            title_edit_overlay_tab_id: None,
            title_editor_blur_subscribed: false,
            pending_tab_removal: None,
            selected_agent,
        }
    }

    /// Makes tab `new_id` active; see `set_active_spec`.
    pub fn set_active_tab_by_id(&mut self, new_id: TabId) -> (effects: Vec<PanelEffect>)
        ensures
            (final(self)@, effects@) == set_active_spec(old(self)@, new_id),
    {
        let mut effects = Vec::new();
        if new_id >= self.tabs.len() {
            return effects;
        }
        let changed = !self.selected_agent.is_same(&self.tabs[new_id].agent);
        let thread_view = self.tabs[new_id].view.is_thread();
        self.overlay_view = None;
        self.overlay_previous_tab_id = None;
        self.title_edit_overlay_tab_id = None;
        self.title_editor_blur_subscribed = false;
        self.active_tab_id = new_id;
        effects.push(PanelEffect::ScrollToTab(new_id));
        if changed {
            self.selected_agent = self.tabs[new_id].agent.duplicate();
            effects.push(PanelEffect::Serialize);
        }
        if thread_view {
            effects.push(PanelEffect::FocusTabView(new_id));
        } else {
            effects.push(PanelEffect::FocusPanel);
        }
        effects
    }

    /// Shows `view` above the tabs; see `overlay_spec`.
    pub fn set_tab_overlay_view(&mut self, view: ActiveView) -> (effects: Vec<PanelEffect>)
        ensures
            (final(self)@, effects@) == overlay_spec(old(self)@, view),
    {
        self.title_edit_overlay_tab_id = None;
        self.title_editor_blur_subscribed = false;
        self.overlay_previous_tab_id = Some(self.active_tab_id);
        self.overlay_view = Some(view);
        let mut effects = Vec::new();
        effects.push(PanelEffect::FocusPanel);
        effects
    }

    /// Removes tab `id`; see `remove_spec`.
    pub fn remove_tab_by_id(&mut self, id: TabId) -> (effects: Vec<PanelEffect>)
        ensures
            (final(self)@, effects@) == remove_spec(old(self)@, id),
    {
        if self.tabs.len() == 1 || id >= self.tabs.len() {
            return Vec::new();
        }
        let removed_id = id;
        let _removed = self.tabs.remove(removed_id);
        let new_id = if self.active_tab_id == removed_id {
            if removed_id <= self.tabs.len() - 1 { removed_id } else { self.tabs.len() - 1 }
        } else if self.active_tab_id > removed_id {
            self.active_tab_id - 1
        } else {
            self.active_tab_id
        };
        if let Some(edit_id) = self.title_edit_overlay_tab_id {
            if edit_id == removed_id {
                self.title_edit_overlay_tab_id = None;
                self.title_editor_blur_subscribed = false;
            } else if edit_id > removed_id {
                self.title_edit_overlay_tab_id = Some(edit_id - 1);
            }
        }
        if new_id == self.active_tab_id {
            let mut effects = Vec::new();
            effects.push(PanelEffect::ScrollToTab(new_id));
            effects
        } else {
            self.set_active_tab_by_id(new_id)
        }
    }

    /// The active tab; when the active id has no tab, the first tab.
    pub fn active_tab(&self) -> (tab: &AgentPanelTab)
        requires
            self@.tabs.len() > 0,
        ensures
            *tab == if self.active_tab_id < self.tabs@.len() {
                self.tabs@[self.active_tab_id as int]
            } else {
                self.tabs@[0]
            },
    {
        if self.active_tab_id < self.tabs.len() {
            &self.tabs[self.active_tab_id]
        } else {
            &self.tabs[0]
        }
    }

    /// The active tab, to change it in place; when the active id has no tab,
    /// the first tab. Nothing else of the panel changes.
    pub fn active_tab_mut(&mut self) -> (tab: &mut AgentPanelTab)
        requires
            old(self)@.tabs.len() > 0,
        ensures
            ({
                let i = if old(self).active_tab_id < old(self).tabs@.len() {
                    old(self).active_tab_id as int
                } else {
                    0
                };
                &&& *tab == old(self).tabs@[i]
                &&& final(self)@ == PanelState { tabs: old(self)@.tabs.update(i, *final(tab)), ..old(self)@ }
            }),
    {
        if self.active_tab_id < self.tabs.len() {
            &mut self.tabs[self.active_tab_id]
        } else {
            &mut self.tabs[0]
        }
    }

    /// The view of the active tab, if the active id has a tab.
    pub fn active_view(&self) -> (view: Option<&ActiveView>)
        ensures
            view matches Some(v) ==> self.active_tab_id < self.tabs@.len() && *v
                == self.tabs@[self.active_tab_id as int].view,
            view is None ==> self.active_tab_id >= self.tabs@.len(),
    {
        if self.active_tab_id < self.tabs.len() {
            Some(self.tabs[self.active_tab_id].view())
        } else {
            None
        }
    }

    /// Whether the title editor is open for tab `tab_id`.
    pub fn is_title_editor_active_for_tab(&self, tab_id: TabId) -> (b: bool)
        ensures
            b == (self.title_edit_overlay_tab_id == Some(tab_id)),
    {
        match self.title_edit_overlay_tab_id {
            Some(e) => e == tab_id,
            None => false,
        }
    }

    /// The identity of `view`, given the session of its active thread.
    pub fn tab_view_identity(view: &ActiveView, active_thread: Option<String>) -> (identity: Option<
        AgentPanelTabIdentity,
    >)
        ensures
            identity == identity_of(*view, active_thread),
    {
        match view {
            ActiveView::AgentThread { .. } => match active_thread {
                Some(id) => Some(AgentPanelTabIdentity::AcpThread(id)),
                None => None,
            },
            _ => None,
        }
    }

    fn view_has_identity(
        view: &ActiveView,
        active_thread: &Option<String>,
        identity: &AgentPanelTabIdentity,
    ) -> (b: bool)
        ensures
            b == has_identity(*view, *active_thread, *identity),
    {
        match (view, active_thread, identity) {
            (ActiveView::AgentThread { .. }, Some(id), AgentPanelTabIdentity::AcpThread(wanted)) => id.eq(wanted),
            _ => false,
        }
    }

    /// The first tab with `identity`, where `active_threads[i]` is the session
    /// of the active thread of tab `i`.
    pub fn find_tab_by_identity(
        &self,
        identity: &AgentPanelTabIdentity,
        active_threads: &Vec<Option<String>>,
    ) -> (found: Option<TabId>)
        requires
            active_threads@.len() == self.tabs@.len(),
        ensures
            found == first_with_identity(self.tabs@, active_threads@, *identity, self.tabs@.len()),
    {
        let n = self.tabs.len();
        let mut i: usize = 0;
        while i < n
            invariant
                n == self.tabs@.len(),
                active_threads@.len() == n,
                i <= n,
                first_with_identity(self.tabs@, active_threads@, *identity, i as nat) is None,
            decreases n - i,
        {
            if Self::view_has_identity(&self.tabs[i].view, &active_threads[i], identity) {
                proof {
                    lemma_first_with_identity_stays(self.tabs@, active_threads@, *identity, (i + 1) as nat, n as nat);
                }
                return Some(i);
            }
            i = i + 1;
        }
        None
    }

    fn push_tab_resolved(
        &mut self,
        new_view: ActiveView,
        agent: AgentType,
        existing: Option<TabId>,
    ) -> (effects: Vec<PanelEffect>)
        ensures
            (final(self)@, effects@) == push_spec(old(self)@, new_view, agent, existing),
    {
        if let Some(existing_id) = existing {
            return self.set_active_tab_by_id(existing_id);
        }
        match new_view {
            ActiveView::TextThread { .. } | ActiveView::AgentThread { .. } => {
                self.tabs.push(AgentPanelTab::new(new_view, agent));
                let new_id = self.tabs.len() - 1;
                let mut effects = self.set_active_tab_by_id(new_id);
                if let Some(pending_id) = self.pending_tab_removal.take() {
                    if self.tabs.len() > 1 {
                        let mut more = self.remove_tab_by_id(pending_id);
                        effects.append(&mut more);
                    } else {
                        self.pending_tab_removal = Some(pending_id);
                    }
                }
                effects
            },
            ActiveView::History | ActiveView::Configuration => self.set_tab_overlay_view(new_view),
            ActiveView::Uninitialized => Vec::new(),
        }
    }

    /// Opens `new_view` for `agent`; see `push_spec`. `new_view_thread` is the
    /// session of the new view's active thread and `active_threads[i]` that of
    /// tab `i`.
    pub fn push_tab(
        &mut self,
        new_view: ActiveView,
        agent: AgentType,
        new_view_thread: Option<String>,
        active_threads: &Vec<Option<String>>,
    ) -> (effects: Vec<PanelEffect>)
        requires
            active_threads@.len() == old(self)@.tabs.len(),
        ensures
            (final(self)@, effects@) == push_spec(
                old(self)@,
                new_view,
                agent,
                existing_tab(old(self)@, identity_of(new_view, new_view_thread), active_threads@),
            ),
    {
        let identity = Self::tab_view_identity(&new_view, new_view_thread);
        let existing = match &identity {
            Some(id) => self.find_tab_by_identity(id, active_threads),
            None => None,
        };
        self.push_tab_resolved(new_view, agent, existing)
    }

    /// Toggles the title editor of the active tab; see `toggle_title_spec`.
    pub fn toggle_active_tab_title_editor(&mut self, agent_has_parent_thread: bool) -> (effects: Vec<
        PanelEffect,
    >)
        ensures
            (final(self)@, effects@) == toggle_title_spec(old(self)@, agent_has_parent_thread),
    {
        let mut effects = Vec::new();
        if self.title_edit_overlay_tab_id.is_some() {
            self.title_editor_blur_subscribed = false;
            self.title_edit_overlay_tab_id = None;
            if self.active_tab_id < self.tabs.len() {
                if self.tabs[self.active_tab_id].view.is_thread() {
                    effects.push(PanelEffect::FocusTabView(self.active_tab_id));
                }
            }
        } else if self.active_tab_id < self.tabs.len() {
            self.title_edit_overlay_tab_id = Some(self.active_tab_id);
            let editable = match self.tabs[self.active_tab_id].view {
                ActiveView::TextThread { .. } => true,
                ActiveView::AgentThread { .. } => agent_has_parent_thread,
                _ => false,
            };
            if editable {
                effects.push(PanelEffect::FocusTitleEditor(self.active_tab_id));
                self.title_editor_blur_subscribed = true;
            }
        }
        effects
    }

    /// The title editor lost focus: it closes.
    pub fn title_editor_blurred(&mut self) -> (effects: Vec<PanelEffect>)
        ensures
            final(self)@ == (PanelState {
                title_edit_overlay_tab_id: None,
                title_editor_blur_subscribed: false,
                ..old(self)@
            }),
            effects@ == seq![PanelEffect::Notify],
    {
        self.title_editor_blur_subscribed = false;
        self.title_edit_overlay_tab_id = None;
        let mut effects = Vec::new();
        effects.push(PanelEffect::Notify);
        effects
    }

    /// Opens the settings as an overlay, or closes them when they already
    /// show; see `open_configuration_spec`.
    pub fn open_configuration_tab_overlay(&mut self) -> (effects: Vec<PanelEffect>)
        ensures
            (final(self)@, effects@) == open_configuration_spec(old(self)@),
    {
        let mut effects = Vec::new();
        if self.overlay_view == Some(ActiveView::Configuration) {
            self.overlay_view = None;
            self.overlay_previous_tab_id = None;
            effects.push(PanelEffect::Notify);
            return effects;
        }
        effects.push(PanelEffect::OpenConfiguration);
        let agent = self.selected_agent.duplicate();
        let mut pushed = self.push_tab_resolved(ActiveView::Configuration, agent, None);
        effects.append(&mut pushed);
        effects.push(PanelEffect::Notify);
        effects
    }

    /// A click on tab `index`; see `tab_click_spec`.
    pub fn tab_clicked(&mut self, index: TabId, agent_has_parent_thread: bool) -> (effects: Vec<
        PanelEffect,
    >)
        ensures
            (final(self)@, effects@) == tab_click_spec(old(self)@, index, agent_has_parent_thread),
    {
        let mut effects = if self.active_tab_id == index {
            self.toggle_active_tab_title_editor(agent_has_parent_thread)
        } else {
            self.set_active_tab_by_id(index)
        };
        effects.push(PanelEffect::Notify);
        effects
    }

    /// A click on the close button of tab `index`: the tab is removed.
    pub fn close_clicked(&mut self, index: TabId) -> (effects: Vec<PanelEffect>)
        ensures
            final(self)@ == remove_spec(old(self)@, index).0,
            effects@ == remove_spec(old(self)@, index).1 + seq![PanelEffect::Notify],
    {
        let mut effects = self.remove_tab_by_id(index);
        effects.push(PanelEffect::Notify);
        effects
    }

    /// The tab whose title editor replaces the tab bar; see `editing_title_tab`.
    pub fn title_editor_tab(&self, agent_has_parent_thread: bool) -> (tab: Option<TabId>)
        ensures
            tab == editing_title_tab(self@, agent_has_parent_thread),
    {
        match self.title_edit_overlay_tab_id {
            Some(e) => {
                if e < self.tabs.len() {
                    let editable = match self.tabs[e].view {
                        ActiveView::TextThread { .. } => true,
                        ActiveView::AgentThread { .. } => agent_has_parent_thread,
                        _ => false,
                    };
                    if editable { Some(e) } else { None }
                } else {
                    None
                }
            },
            None => None,
        }
    }

    /// Whether tabs can be closed: only when there is more than one.
    pub fn can_close_tabs(&self) -> (b: bool)
        ensures
            b == (self.tabs@.len() > 1),
    {
        self.tabs.len() > 1
    }
}

/// Once a tab with the identity is found among the first `i` tabs, it stays
/// the first one among more tabs.
proof fn lemma_first_with_identity_stays(
    tabs: Seq<AgentPanelTab>,
    active_threads: Seq<Option<String>>,
    identity: AgentPanelTabIdentity,
    i: nat,
    n: nat,
)
    requires
        i <= n,
    ensures
        first_with_identity(tabs, active_threads, identity, i) is Some ==> first_with_identity(
            tabs,
            active_threads,
            identity,
            n,
        ) == first_with_identity(tabs, active_threads, identity, i),
    decreases n - i,
{
    if i < n {
        lemma_first_with_identity_stays(tabs, active_threads, identity, i, (n - 1) as nat);
    }
}


} // verus!

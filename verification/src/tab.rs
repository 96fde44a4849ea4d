//! A tab of the agent panel: the view it shows and the agent it belongs to.

use vstd::prelude::*;

verus! {

/// Index of a tab in the panel's tab list.
pub type TabId = usize;

/// What a tab (or the panel's overlay) shows. The threads and editors
/// themselves live in the UI; a view refers to them by their entity ids.
#[derive(Clone, Copy, PartialEq, Eq, Structural, Debug)]
pub enum ActiveView {
    AgentThread { server_view: u64 },
    TextThread { text_thread_editor: u64, title_editor: u64 },
    History,
    Configuration,
    Uninitialized,
}

impl ActiveView {
    /// Thread views are the ones that become tabs and own a focusable editor.
    pub open spec fn is_thread_view(self) -> bool {
        self is AgentThread || self is TextThread
    }

    /// Whether this is a thread view (agent thread or text thread).
    pub fn is_thread(&self) -> (b: bool)
        ensures
            b == self.is_thread_view(),
    {
        match self {
            ActiveView::AgentThread { .. } | ActiveView::TextThread { .. } => true,
            _ => false,
        }
    }
}

/// Which agent a tab talks to.
#[derive(Debug)]
pub enum AgentType {
    NativeAgent,
    TextThread,
    Custom { name: String },
}

/// Two agents are the same when they are the same variant and, for custom
/// agents, have the same name.
pub open spec fn same_agent(a: AgentType, b: AgentType) -> bool {
    match (a, b) {
        (AgentType::NativeAgent, AgentType::NativeAgent) => true,
        (AgentType::TextThread, AgentType::TextThread) => true,
        (AgentType::Custom { name: x }, AgentType::Custom { name: y }) => x@ == y@,
        _ => false,
    }
}

impl AgentType {
    /// Compares two agents as `same_agent` does.
    pub fn is_same(&self, other: &AgentType) -> (b: bool)
        ensures
            b == same_agent(*self, *other),
    {
        match (self, other) {
            (AgentType::NativeAgent, AgentType::NativeAgent) => true,
            (AgentType::TextThread, AgentType::TextThread) => true,
            (AgentType::Custom { name: x }, AgentType::Custom { name: y }) => x.eq(y),
            _ => false,
        }
    }

    /// A copy of this agent.
    pub fn duplicate(&self) -> (r: AgentType)
        ensures
            r == *self,
    {
        match self {
            AgentType::NativeAgent => AgentType::NativeAgent,
            AgentType::TextThread => AgentType::TextThread,
            AgentType::Custom { name } => AgentType::Custom { name: name.clone() },
        }
    }
}

/// What identifies the conversation a tab shows, so that opening it again
/// switches to the existing tab.
#[derive(Debug)]
pub enum AgentPanelTabIdentity {
    AcpThread(String),
}

/// Identities are equal when their session ids read the same.
pub open spec fn same_identity(a: AgentPanelTabIdentity, b: AgentPanelTabIdentity) -> bool {
    match (a, b) {
        (AgentPanelTabIdentity::AcpThread(x), AgentPanelTabIdentity::AcpThread(y)) => x@ == y@,
    }
}

impl AgentPanelTabIdentity {
    /// Compares two identities as `same_identity` does.
    pub fn is_same(&self, other: &AgentPanelTabIdentity) -> (b: bool)
        ensures
            b == same_identity(*self, *other),
    {
        match (self, other) {
            (AgentPanelTabIdentity::AcpThread(x), AgentPanelTabIdentity::AcpThread(y)) => x.eq(y),
        }
    }
}

/// One tab of the agent panel.
#[derive(Debug)]
pub struct AgentPanelTab {
    pub view: ActiveView,
    pub agent: AgentType,
}

impl AgentPanelTab {
    pub fn new(view: ActiveView, agent: AgentType) -> (tab: Self)
        ensures
            tab.view == view,
            tab.agent == agent,
    {
        AgentPanelTab { view, agent }
    }

    pub fn view(&self) -> (v: &ActiveView)
        ensures
            *v == self.view,
    {
        &self.view
    }

    pub fn agent(&self) -> (a: &AgentType)
        ensures
            *a == self.agent,
    {
        &self.agent
    }
}

} // verus!

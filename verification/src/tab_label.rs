//! What a tab of the agent panel shows: its label, the tooltip of a long
//! label, and the icon of its agent.

use vstd::prelude::*;
use vstd::string::*;

use crate::tab::ActiveView;
use crate::tab::AgentType;
use crate::tab::TabId;
use crate::tabs::AgentPanel;
use crate::tabs::editing_title_tab;

verus! {

/// Labels longer than this many characters are cut.
pub const MAX_TAB_LABEL_CHARS: usize = 20;

/// The icon of a tab's agent: only custom agents have one, their own SVG
/// (`external_icon`) when they provide it, else a generic one.
pub open spec fn agent_icon(agent: AgentType, external_icon: Option<String>) -> Option<TabIcon> {
    match agent {
        AgentType::Custom { .. } => match external_icon {
            Some(path) => Some(TabIcon::External(path)),
            None => Some(TabIcon::Sparkle),
        },
        _ => None,
    }
}

/// A tab label: the title when it has at most `MAX_TAB_LABEL_CHARS`
/// characters, otherwise its first `MAX_TAB_LABEL_CHARS` characters followed
/// by `...`, with the full title as tooltip.
pub open spec fn display_label(title: Seq<char>) -> (Seq<char>, Option<Seq<char>>) {
    if title.len() <= MAX_TAB_LABEL_CHARS {
        (title, None)
    } else {
        (title.take(MAX_TAB_LABEL_CHARS as int) + seq!['.', '.', '.'], Some(title))
    }
}

/// A tab label never exceeds 20 characters plus the three dots, always begins like the title, and has a tooltip exactly when the
/// title was cut, the tooltip then being the whole title.
pub proof fn display_label_is_bounded(title: Seq<char>)
    ensures
        display_label(title).0.len() <= 23,
        display_label(title).1 is Some <==> title.len() > 20,
        display_label(title).1 matches Some(t) ==> t == title,
        display_label(title).1 is None ==> display_label(title).0 == title,
        display_label(title).1 is Some ==> display_label(title).0.len() == 23
            && display_label(title).0.skip(20) == seq!['.', '.', '.'],
        ({
            let n = if title.len() <= 20 { title.len() as int } else { 20 };
            display_label(title).0.take(n) == title.take(n)
        }),
{
    if title.len() <= MAX_TAB_LABEL_CHARS {
        assert(title.take(title.len() as int) =~= title);
    } else {
        let label = display_label(title).0;
        assert(label.take(MAX_TAB_LABEL_CHARS as int) =~= title.take(MAX_TAB_LABEL_CHARS as int));
        assert(label.skip(MAX_TAB_LABEL_CHARS as int) =~= seq!['.', '.', '.']);
    }
}

/// The title of a tab showing `view`; an agent thread shows the title of its
/// thread, `thread_title`.
pub open spec fn tab_title(view: ActiveView, thread_title: Seq<char>) -> Seq<char> {
    match view {
        ActiveView::AgentThread { .. } => thread_title,
        ActiveView::TextThread { .. } => seq!['T', 'e', 'x', 't', ' ', 'T', 'h', 'r', 'e', 'a', 'd'],
        ActiveView::History => seq!['H', 'i', 's', 't', 'o', 'r', 'y'],
        ActiveView::Configuration => seq!['S', 'e', 't', 't', 'i', 'n', 'g', 's'],
        ActiveView::Uninitialized => seq!['L', 'o', 'a', 'd', 'i', 'n', 'g', '\u{2026}'],
    }
}

/// The label of a tab as drawn: its text, the tooltip of a cut title, and
/// whether it is drawn muted (inactive tabs are).
pub struct TabLabel {
    pub text: String,
    pub tooltip: Option<String>,
    pub muted: bool,
}

/// One tab of the tab bar as drawn.
pub struct TabEntry {
    pub index: TabId,
    pub is_active: bool,
    pub label: TabLabel,
    pub icon: Option<TabIcon>,
    /// Whether its close button shows.
    pub can_close: bool,
}

/// What the tab bar shows.
pub enum TabBar {
    /// The title editor of this tab, in place of the tabs.
    TitleEditor(TabId),
    /// The tabs.
    Tabs(Vec<TabEntry>),
}

/// The icon drawn before a tab's label.
#[derive(Debug)]
pub enum TabIcon {
    /// The custom agent's own icon, an SVG at this path.
    External(String),
    /// The generic icon of a custom agent without one.
    Sparkle,
}

impl AgentPanel {
    /// Cuts a title to the tab label; see `display_label`.
    pub fn display_tab_label(title: &str, _is_active: bool) -> (label: (String, Option<String>))
        ensures
            label.0@ == display_label(title@).0,
            label.1 matches Some(t) ==> display_label(title@).1 == Some(t@),
            label.1 is None ==> display_label(title@).1 is None,
    {
        let count = title.unicode_len();
        if count <= MAX_TAB_LABEL_CHARS {
            (String::from_str(title), None)
        } else {
            let preview = title.substring_char(0, MAX_TAB_LABEL_CHARS);
            let mut text = String::from_str(preview);
            proof { reveal_strlit("..."); }
            text.append("...");
            (text, Some(String::from_str(title)))
        }
    }

    /// The title of a tab; see `tab_title`.
    pub fn tab_title_text(view: &ActiveView, thread_title: &str) -> (title: String)
        ensures
            title@ == tab_title(*view, thread_title@),
    {
        match view {
            ActiveView::AgentThread { .. } => String::from_str(thread_title),
            ActiveView::TextThread { .. } => {
                proof { reveal_strlit("Text Thread"); }
                String::from_str("Text Thread")
            },
            ActiveView::History => {
                proof { reveal_strlit("History"); }
                String::from_str("History")
            },
            ActiveView::Configuration => {
                proof { reveal_strlit("Settings"); }
                String::from_str("Settings")
            },
            ActiveView::Uninitialized => {
                proof { reveal_strlit("Loading\u{2026}"); }
                String::from_str("Loading\u{2026}")
            },
        }
    }

    /// The label of a tab showing `view`: its title cut by `display_label`,
    /// muted unless the tab is active.
    pub fn render_tab_label(view: &ActiveView, is_active: bool, thread_title: &str) -> (label: TabLabel)
        ensures
            label.text@ == display_label(tab_title(*view, thread_title@)).0,
            label.tooltip matches Some(t) ==> display_label(tab_title(*view, thread_title@)).1 == Some(t@),
            label.tooltip is None ==> display_label(tab_title(*view, thread_title@)).1 is None,
            label.muted == !is_active,
    {
        let title = Self::tab_title_text(view, thread_title);
        let (text, tooltip) = Self::display_tab_label(title.as_str(), is_active);
        TabLabel { text, tooltip, muted: !is_active }
    }

    /// The icon of a tab's agent: only custom agents have one, their own SVG
    /// (`external_icon`) when they provide it, else a generic one.
    pub fn render_tab_agent_icon(agent: &AgentType, external_icon: Option<String>) -> (icon: Option<TabIcon>)
        ensures
            icon == agent_icon(*agent, external_icon),
    {
        match agent {
            AgentType::Custom { .. } => match external_icon {
                Some(path) => Some(TabIcon::External(path)),
                None => Some(TabIcon::Sparkle),
            },
            AgentType::NativeAgent | AgentType::TextThread => None,
        }
    }

    /// The tab bar. While the title editor of a tab that has one is open
    /// (`editing_has_parent_thread` tells whether an agent thread being
    /// edited has a parent thread), the bar is that title editor. Otherwise it
    /// holds one entry per tab, in order: its label (the title of an agent
    /// thread being `thread_titles[i]`), whether it is the active tab, its
    /// agent's icon (`external_icons[i]` being the icon a custom agent
    /// provides), and whether it can be closed, which needs more than one tab.
    pub fn render_tab_bar(
        &self,
        editing_has_parent_thread: bool,
        thread_titles: &Vec<String>,
        external_icons: &Vec<Option<String>>,
    ) -> (bar: TabBar)
        requires
            thread_titles@.len() == self.tabs@.len(),
            external_icons@.len() == self.tabs@.len(),
        ensures
            editing_title_tab(self@, editing_has_parent_thread) matches Some(e) ==> bar == TabBar::TitleEditor(e),
            editing_title_tab(self@, editing_has_parent_thread) is None ==> (bar matches TabBar::Tabs(entries)
                && entries@.len() == self.tabs@.len() && forall|i: int| 0 <= i < entries@.len() ==> {
                    let entry = #[trigger] entries@[i];
                    let title = tab_title(self.tabs@[i].view, thread_titles@[i]@);
                    &&& entry.index == i
                    &&& entry.is_active == (i == self.active_tab_id)
                    &&& entry.label.text@ == display_label(title).0
                    &&& (entry.label.tooltip matches Some(t) ==> display_label(title).1 == Some(t@))
                    &&& (entry.label.tooltip is None ==> display_label(title).1 is None)
                    &&& entry.label.muted == (i != self.active_tab_id)
                    &&& entry.icon == agent_icon(self.tabs@[i].agent, external_icons@[i])
                    &&& entry.can_close == (self.tabs@.len() > 1)
                }),
    {
        if let Some(e) = self.title_editor_tab(editing_has_parent_thread) {
            return TabBar::TitleEditor(e);
        }
        let can_close = self.can_close_tabs();
        let mut entries: Vec<TabEntry> = Vec::new();
        let mut i: usize = 0;
        while i < self.tabs.len()
            invariant
                thread_titles@.len() == self.tabs@.len(),
                external_icons@.len() == self.tabs@.len(),
                can_close == (self.tabs@.len() > 1),
                i <= self.tabs@.len(),
                entries@.len() == i,
                forall|j: int| 0 <= j < i ==> {
                    let entry = #[trigger] entries@[j];
                    let title = tab_title(self.tabs@[j].view, thread_titles@[j]@);
                    &&& entry.index == j
                    &&& entry.is_active == (j == self.active_tab_id)
                    &&& entry.label.text@ == display_label(title).0
                    &&& (entry.label.tooltip matches Some(t) ==> display_label(title).1 == Some(t@))
                    &&& (entry.label.tooltip is None ==> display_label(title).1 is None)
                    &&& entry.label.muted == (j != self.active_tab_id)
                    &&& entry.icon == agent_icon(self.tabs@[j].agent, external_icons@[j])
                    &&& entry.can_close == (self.tabs@.len() > 1)
                },
            decreases self.tabs@.len() - i,
        {
            let is_active = i == self.active_tab_id;
            let tab = &self.tabs[i];
            let label = Self::render_tab_label(&tab.view, is_active, thread_titles[i].as_str());
            let external_icon = match &external_icons[i] {
                Some(path) => Some(path.clone()),
                None => None,
            };
            let icon = Self::render_tab_agent_icon(&tab.agent, external_icon);
            entries.push(TabEntry { index: i, is_active, label, icon, can_close });
            i = i + 1;
        }
        TabBar::Tabs(entries)
    }
}

} // verus!

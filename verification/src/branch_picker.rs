//! The picker that chooses the base branch of a branch diff, and the toolbar
//! that opens it.

use vstd::prelude::*;
use vstd::string::*;

use crate::branch::Branch;
use crate::branch::format_branch_name;
use crate::branch::has_prefix;
use crate::branch::not_head;
use crate::branch::sort_branches_for_picker;
use crate::branch::sorted_by_recency;
use crate::branch::timestamps_negatable;
use crate::branch::with_key;
use crate::branch::remotes_prefix;
use crate::branch::short_branch_name;

verus! {

/// A branch offered by the picker, with the positions of the query's
/// characters in its name.
#[derive(Debug)]
pub struct BranchMatch {
    pub branch: Branch,
    pub positions: Vec<usize>,
}

/// A fuzzy-match result: the index of the matching branch among all
/// branches, and the matched positions in its name.
#[derive(Debug)]
pub struct MatchCandidate {
    pub candidate_id: usize,
    pub positions: Vec<usize>,
}

/// What the fuzzy matcher is asked to match: a branch's index and short name.
#[derive(Debug)]
pub struct StringCandidate {
    pub id: usize,
    pub string: String,
}

/// One row of the picker as drawn.
#[derive(Debug)]
pub struct MatchRow {
    /// Remote branches get a web icon, local ones a screen icon.
    pub is_remote: bool,
    pub name: String,
    pub positions: Vec<usize>,
}

/// Whether `matches` offers every branch of `all`, in order, with nothing
/// highlighted.
pub open spec fn offers_all(matches: Seq<BranchMatch>, all: Seq<Branch>) -> bool {
    &&& matches.len() == all.len()
    &&& forall|i: int| 0 <= i < all.len() ==> (#[trigger] matches[i]).branch == all[i] && matches[i].positions@.len() == 0
}

/// Whether `matches` offers, in order, the branches the fuzzy matcher found.
pub open spec fn offers_candidates(
    matches: Seq<BranchMatch>,
    all: Seq<Branch>,
    candidates: Seq<MatchCandidate>,
) -> bool {
    &&& matches.len() == candidates.len()
    &&& forall|i: int| 0 <= i < candidates.len() ==> (#[trigger] matches[i]).branch
        == all[candidates[i].candidate_id as int] && matches[i].positions@ == candidates[i].positions@
}

fn copy_positions(positions: &Vec<usize>) -> (copy: Vec<usize>)
    ensures
        copy@ == positions@,
{
    let mut copy = Vec::new();
    let mut i: usize = 0;
    while i < positions.len()
        invariant
            i <= positions@.len(),
            copy@ == positions@.take(i as int),
        decreases positions@.len() - i,
    {
        copy.push(positions[i]);
        proof {
            assert(positions@.take(i + 1) =~= positions@.take(i as int).push(positions@[i as int]));
        }
        i = i + 1;
    }
    proof {
        assert(positions@.take(positions@.len() as int) =~= positions@);
    }
    copy
}

fn all_as_matches(all: &Vec<Branch>) -> (matches: Vec<BranchMatch>)
    ensures
        offers_all(matches@, all@),
{
    let mut matches: Vec<BranchMatch> = Vec::new();
    let mut i: usize = 0;
    while i < all.len()
        invariant
            i <= all@.len(),
            matches@.len() == i,
            forall|j: int| 0 <= j < i ==> (#[trigger] matches@[j]).branch == all@[j] && matches@[j].positions@.len() == 0,
        decreases all@.len() - i,
    {
        matches.push(BranchMatch { branch: all[i].duplicate(), positions: Vec::new() });
        i = i + 1;
    }
    matches
}

/// The state of the base-branch picker.
#[derive(Debug)]
pub struct BaseBranchPickerDelegate {
    pub all_branches: Vec<Branch>,
    pub matches: Vec<BranchMatch>,
    pub selected_index: usize,
}

impl BaseBranchPickerDelegate {
    /// A picker over `all_branches` that offers them all and selects the first.
    pub fn new(all_branches: Vec<Branch>) -> (picker: Self)
        ensures
            picker.all_branches == all_branches,
            offers_all(picker.matches@, all_branches@),
            picker.selected_index == 0,
    {
        let matches = all_as_matches(&all_branches);
        BaseBranchPickerDelegate { all_branches, matches, selected_index: 0 }
    }

    pub fn match_count(&self) -> (n: usize)
        ensures
            n == self.matches@.len(),
    {
        self.matches.len()
    }

    pub fn selected_index(&self) -> (ix: usize)
        ensures
            ix == self.selected_index,
    {
        self.selected_index
    }

    pub fn set_selected_index(&mut self, ix: usize)
        ensures
            final(self).selected_index == ix,
            final(self).all_branches == old(self).all_branches,
            final(self).matches == old(self).matches,
    {
        self.selected_index = ix;
    }

    /// The text shown in the empty query field.
    pub fn placeholder_text(&self) -> (text: String)
        ensures
            text@ == seq!['S', 'e', 'l', 'e', 'c', 't', ' ', 't', 'a', 'r', 'g', 'e', 't', ' ', 'b', 'r', 'a', 'n', 'c', 'h', '\u{2026}'],
    {
        proof { reveal_strlit("Select target branch\u{2026}"); }
        let text = String::from_str("Select target branch\u{2026}");
        assert(text@ =~= seq!['S', 'e', 'l', 'e', 'c', 't', ' ', 't', 'a', 'r', 'g', 'e', 't', ' ', 'b', 'r', 'a', 'n', 'c', 'h', '\u{2026}']);
        text
    }

    /// The candidates handed to the fuzzy matcher for a non-empty query: each
    /// branch's index and short name, in order.
    pub fn match_candidates(&self) -> (candidates: Vec<StringCandidate>)
        ensures
            candidates@.len() == self.all_branches@.len(),
            forall|i: int| 0 <= i < candidates@.len() ==> (#[trigger] candidates@[i]).id == i
                && candidates@[i].string@ == short_branch_name(self.all_branches@[i].ref_name@),
    {
        let mut candidates: Vec<StringCandidate> = Vec::new();
        let mut i: usize = 0;
        while i < self.all_branches.len()
            invariant
                i <= self.all_branches@.len(),
                candidates@.len() == i,
                forall|j: int| 0 <= j < i ==> (#[trigger] candidates@[j]).id == j
                    && candidates@[j].string@ == short_branch_name(self.all_branches@[j].ref_name@),
            decreases self.all_branches@.len() - i,
        {
            candidates.push(StringCandidate { id: i, string: String::from_str(self.all_branches[i].name()) });
            i = i + 1;
        }
        candidates
    }

    /// New results for `query`: an empty query offers every branch; any other
    /// offers the branches the fuzzy matcher found for it (`candidates`), in
    /// its order. Either way the first result is selected.
    pub fn update_matches(&mut self, query: &str, candidates: Vec<MatchCandidate>)
        requires
            forall|i: int| 0 <= i < candidates@.len() ==> (#[trigger] candidates@[i]).candidate_id < old(self).all_branches@.len(),
        ensures
            final(self).all_branches == old(self).all_branches,
            final(self).selected_index == 0,
            query@.len() == 0 ==> offers_all(final(self).matches@, old(self).all_branches@),
            query@.len() != 0 ==> offers_candidates(final(self).matches@, old(self).all_branches@, candidates@),
    {
        if query.is_empty() {
            self.matches = all_as_matches(&self.all_branches);
        } else {
            let mut matches: Vec<BranchMatch> = Vec::new();
            let mut i: usize = 0;
            while i < candidates.len()
                invariant
                    i <= candidates@.len(),
                    matches@.len() == i,
                    forall|j: int| 0 <= j < candidates@.len() ==> (#[trigger] candidates@[j]).candidate_id < self.all_branches@.len(),
                    forall|j: int| 0 <= j < i ==> (#[trigger] matches@[j]).branch
                        == self.all_branches@[candidates@[j].candidate_id as int] && matches@[j].positions@ == candidates@[j].positions@,
                decreases candidates@.len() - i,
            {
                let id = candidates[i].candidate_id;
                let branch = self.all_branches[id].duplicate();
                let positions = copy_positions(&candidates[i].positions);
                matches.push(BranchMatch { branch, positions });
                i = i + 1;
            }
            self.matches = matches;
        }
        self.selected_index = 0;
    }

    /// The branches finished loading: they become the picker's branches, all
    /// offered.
    pub fn set_branches(&mut self, all_branches: Vec<Branch>)
        ensures
            final(self).all_branches == all_branches,
            offers_all(final(self).matches@, all_branches@),
            final(self).selected_index == old(self).selected_index,
    {
        self.matches = all_as_matches(&all_branches);
        self.all_branches = all_branches;
    }

    /// The repository's branches arrived: the checked-out branch is dropped,
    /// the rest are ordered by `sort_branches_for_picker` and all offered.
    pub fn branches_loaded(&mut self, branches: Vec<Branch>)
        requires
            timestamps_negatable(branches@),
        ensures
            final(self).all_branches@.to_multiset() == branches@.filter(not_head()).to_multiset(),
            sorted_by_recency(final(self).all_branches@),
            forall|k: Option<int>| #[trigger] final(self).all_branches@.filter(with_key(k))
                == branches@.filter(not_head()).filter(with_key(k)),
            offers_all(final(self).matches@, final(self).all_branches@),
            final(self).selected_index == old(self).selected_index,
    {
        let listed = sort_branches_for_picker(branches);
        self.set_branches(listed);
    }

    /// Confirming the selection: the full ref of the selected branch, which
    /// becomes the diff's base; nothing when the selection is out of range.
    pub fn confirm(&self) -> (base_ref: Option<String>)
        ensures
            self.selected_index < self.matches@.len() ==> base_ref == Some(
                self.matches@[self.selected_index as int].branch.ref_name,
            ),
            self.selected_index >= self.matches@.len() ==> base_ref is None,
    {
        if self.selected_index < self.matches.len() {
            Some(self.matches[self.selected_index].branch.ref_name.clone())
        } else {
            None
        }
    }

    /// Row `ix` of the picker, if there is one.
    pub fn render_match(&self, ix: usize) -> (row: Option<MatchRow>)
        ensures
            ix < self.matches@.len() ==> (row matches Some(r) && r.is_remote == has_prefix(
                self.matches@[ix as int].branch.ref_name@,
                remotes_prefix(),
            ) && r.name@ == short_branch_name(self.matches@[ix as int].branch.ref_name@)
                && r.positions@ == self.matches@[ix as int].positions@),
            ix >= self.matches@.len() ==> row is None,
    {
        if ix < self.matches.len() {
            let m = &self.matches[ix];
            Some(MatchRow {
                is_remote: m.branch.is_remote(),
                name: String::from_str(m.branch.name()),
                positions: copy_positions(&m.positions),
            })
        } else {
            None
        }
    }
}

/// What a branch diff is compared against.
#[derive(Debug)]
pub enum DiffBase {
    Head,
    Merge { base_ref: String },
}

/// Where the toolbar item shows.
#[derive(Clone, Copy, PartialEq, Eq, Structural, Debug)]
pub enum ToolbarItemLocation {
    Hidden,
    PrimaryRight,
}

/// Which controls the branch-diff toolbar shows besides the base-branch button.
#[derive(Clone, Copy, PartialEq, Eq, Structural, Debug)]
pub struct ToolbarControls {
    pub show_diff_stat: bool,
    pub show_review_button: bool,
    pub show_send_review: bool,
}

/// What the branch-diff toolbar shows.
#[derive(Debug)]
pub struct ToolbarView {
    pub base_ref_label: String,
    pub controls: ToolbarControls,
}

/// What dispatching a toolbar action asks the UI to do, in order.
#[derive(Clone, Copy, PartialEq, Eq, Structural, Debug)]
pub enum ToolbarEffect {
    /// Focus the project diff with this entity id.
    FocusProjectDiff(u64),
    /// Dispatch the action once the current update is done.
    DispatchActionLater,
}

/// The toolbar of a branch diff: it follows the active pane item when that is
/// a project diff against a merge base.
#[derive(Debug)]
pub struct BranchDiffToolbar {
    /// The entity id of the project diff it serves.
    pub project_diff: Option<u64>,
}

impl BranchDiffToolbar {
    pub fn new() -> (toolbar: Self)
        ensures
            toolbar.project_diff is None,
    {
        BranchDiffToolbar { project_diff: None }
    }

    /// The project diff the toolbar serves, if any.
    pub fn project_diff(&self) -> (id: Option<u64>)
        ensures
            id == self.project_diff,
    {
        self.project_diff
    }

    /// What the toolbar shows, given the served diff's base, whether the diff
    /// is empty, whether AI is enabled and how many review comments there
    /// are: nothing when it serves no diff, else the base-branch button and
    /// the controls of `toolbar_controls`.
    pub fn render(
        &self,
        diff_base: &DiffBase,
        is_multibuffer_empty: bool,
        is_ai_enabled: bool,
        review_count: usize,
    ) -> (view: Option<ToolbarView>)
        ensures
            self.project_diff is None ==> view is None,
            self.project_diff is Some ==> (view matches Some(v) && v.base_ref_label@ == base_label(*diff_base)
                && v.controls.show_diff_stat == !is_multibuffer_empty
                && v.controls.show_review_button == (!is_multibuffer_empty && is_ai_enabled)
                && v.controls.show_send_review == (review_count > 0)),
    {
        if self.project_diff.is_none() {
            return None;
        }
        Some(ToolbarView {
            base_ref_label: base_ref_label(diff_base),
            controls: toolbar_controls(is_multibuffer_empty, is_ai_enabled, review_count),
        })
    }

    /// Dispatching an action from the toolbar: the served project diff takes
    /// focus first, if there is one, then the action is dispatched later.
    pub fn dispatch_action(&self) -> (effects: Vec<ToolbarEffect>)
        ensures
            effects@ == match self.project_diff {
                Some(id) => seq![ToolbarEffect::FocusProjectDiff(id), ToolbarEffect::DispatchActionLater],
                None => seq![ToolbarEffect::DispatchActionLater],
            },
    {
        let mut effects = Vec::new();
        if let Some(id) = self.project_diff {
            effects.push(ToolbarEffect::FocusProjectDiff(id));
        }
        effects.push(ToolbarEffect::DispatchActionLater);
        effects
    }

    /// The active pane item changed; `item` is the project diff it shows (its
    /// entity id and diff base), if it shows one. The toolbar serves it only
    /// when it compares against a merge base, and shows only then.
    pub fn set_active_pane_item(&mut self, item: Option<(u64, &DiffBase)>) -> (location: ToolbarItemLocation)
        ensures
            final(self).project_diff == match item {
                Some((id, base)) => if base is Merge { Some(id) } else { None },
                None => None,
            },
            location == if final(self).project_diff is Some {
                ToolbarItemLocation::PrimaryRight
            } else {
                ToolbarItemLocation::Hidden
            },
    {
        self.project_diff = match item {
            Some((id, DiffBase::Merge { .. })) => Some(id),
            _ => None,
        };
        if self.project_diff.is_some() {
            ToolbarItemLocation::PrimaryRight
        } else {
            ToolbarItemLocation::Hidden
        }
    }
}

/// The label of the base-branch button: the short name of the merge base, or
/// `HEAD`.
pub open spec fn base_label(base: DiffBase) -> Seq<char> {
    match base {
        DiffBase::Merge { base_ref } => short_branch_name(base_ref@),
        DiffBase::Head => seq!['H', 'E', 'A', 'D'],
    }
}

/// The label of the base-branch button; see `base_label`.
pub fn base_ref_label(base: &DiffBase) -> (label: String)
    ensures
        label@ == base_label(*base),
{
    match base {
        DiffBase::Merge { base_ref } => String::from_str(format_branch_name(base_ref.as_str())),
        DiffBase::Head => {
            proof { reveal_strlit("HEAD"); }
            let label = String::from_str("HEAD");
            assert(label@ =~= seq!['H', 'E', 'A', 'D']);
            label
        },
    }
}

/// The toolbar's controls: the diff stat when the diff is not empty, the
/// review button when it is not empty and AI is enabled, and the button that
/// sends review comments when there are some.
pub fn toolbar_controls(is_multibuffer_empty: bool, is_ai_enabled: bool, review_count: usize) -> (controls: ToolbarControls)
    ensures
        controls.show_diff_stat == !is_multibuffer_empty,
        controls.show_review_button == (!is_multibuffer_empty && is_ai_enabled),
        controls.show_send_review == (review_count > 0),
{
    ToolbarControls {
        show_diff_stat: !is_multibuffer_empty,
        show_review_button: !is_multibuffer_empty && is_ai_enabled,
        show_send_review: review_count > 0,
    }
}

} // verus!

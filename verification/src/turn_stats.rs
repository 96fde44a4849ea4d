//! What the controls under an agent thread show: the spinner and statistics
//! of the current or last turn, and the thread's action buttons.

use vstd::prelude::*;

verus! {

/// The spinner shown while a turn is generating.
#[derive(Clone, Copy, PartialEq, Eq, Structural, Debug)]
pub enum Spinner {
    /// The turn waits for the user to confirm a tool call.
    Sand,
    /// The turn is running.
    Running,
}

/// The statistics of a turn as shown, `D` being how a duration is held.
#[derive(Debug)]
pub struct TurnStats<D> {
    pub spinner: Option<Spinner>,
    /// Whether the "Edit Message" button shows.
    pub show_edit_button: bool,
    /// The duration shown, if any.
    pub elapsed: Option<D>,
    /// The token count shown, if any.
    pub tokens: Option<u64>,
}

/// The kind of an entry of an agent thread.
#[derive(Clone, Copy, PartialEq, Eq, Structural, Debug)]
pub enum ThreadEntryKind {
    UserMessage,
    AssistantMessage,
    ToolCall,
}

/// The feedback the user gave on a thread.
#[derive(Clone, Copy, PartialEq, Eq, Structural, Debug)]
pub enum ThreadFeedback {
    Positive,
    Negative,
}

/// The button that shares a thread, or syncs an imported one with its source.
#[derive(Clone, Copy, PartialEq, Eq, Structural, Debug)]
pub enum ShareButton {
    Sync,
    Share,
}

/// The action buttons of a thread besides the ones always shown.
#[derive(Clone, Copy, PartialEq, Eq, Structural, Debug)]
pub struct ThreadActions {
    /// Whether the thumbs-up and thumbs-down buttons show.
    pub show_feedback: bool,
    /// Whether thumbs-up is highlighted (and thanks the user in its tooltip).
    pub thumbs_up_given: bool,
    /// Whether thumbs-down is highlighted (and thanks the user in its tooltip).
    pub thumbs_down_given: bool,
    pub share: Option<ShareButton>,
}

/// The timing and token counts of the current and the last turn, `D` being
/// how a duration is held.
#[derive(Debug)]
pub struct TurnFields<D> {
    /// How long the current turn has been running, while it runs.
    pub turn_elapsed: Option<D>,
    pub last_turn_duration: Option<D>,
    pub turn_tokens: Option<u64>,
    pub last_turn_tokens: Option<u64>,
}

/// What decides the thread's extra action buttons.
#[derive(Clone, Copy, PartialEq, Eq, Structural, Debug)]
pub struct ActionInputs {
    /// Whether feedback is enabled in the settings.
    pub enable_feedback: bool,
    /// Whether the thread's connection reports telemetry.
    pub has_telemetry: bool,
    pub feedback: Option<ThreadFeedback>,
    /// Whether sharing is possible: the project and the server view still
    /// exist, sharing is enabled, and the client is connected.
    pub can_share: bool,
    pub is_imported_thread: bool,
}

/// The controls under a thread.
#[derive(Debug)]
pub struct ThreadControls<D> {
    pub stats: TurnStats<D>,
    /// The action buttons, when they show.
    pub actions: Option<ThreadActions>,
}

/// The turn statistics shown. A generating turn has a spinner (the waiting
/// kind when it needs a confirmation). With statistics enabled, an idle turn
/// offers to edit the last message; the duration shown is the running time
/// of a generating turn or the duration of the last turn; and when a
/// duration shows, the token count of the same turn shows too, unless it is
/// zero.
pub open spec fn turn_stats_spec<D>(
    is_generating: bool,
    needs_confirmation: bool,
    show_turn_stats: bool,
    fields: TurnFields<D>,
) -> TurnStats<D> {
    let elapsed = if !show_turn_stats {
        None
    } else if is_generating {
        fields.turn_elapsed
    } else {
        fields.last_turn_duration
    };
    let tokens = if is_generating { fields.turn_tokens } else { fields.last_turn_tokens };
    TurnStats {
        spinner: if !is_generating {
            None
        } else if needs_confirmation {
            Some(Spinner::Sand)
        } else {
            Some(Spinner::Running)
        },
        show_edit_button: show_turn_stats && !is_generating,
        elapsed,
        tokens: if elapsed is None {
            None
        } else {
            match tokens {
                Some(n) => if n > 0 { Some(n) } else { None },
                None => None,
            }
        },
    }
}

/// The thread's extra action buttons: feedback buttons when feedback is
/// enabled and the thread reports telemetry, each highlighted when it is the
/// feedback given; and, when the thread can be shared, a sync button for an
/// imported thread or a share button otherwise.
pub open spec fn thread_actions_spec(inputs: ActionInputs) -> ThreadActions {
    ThreadActions {
        show_feedback: inputs.enable_feedback && inputs.has_telemetry,
        thumbs_up_given: inputs.feedback == Some(ThreadFeedback::Positive),
        thumbs_down_given: inputs.feedback == Some(ThreadFeedback::Negative),
        share: if !inputs.can_share {
            None
        } else if inputs.is_imported_thread {
            Some(ShareButton::Sync)
        } else {
            Some(ShareButton::Share)
        },
    }
}

/// The turn statistics shown; see `turn_stats_spec`.
pub fn render_turn_stats<D: Copy>(
    is_generating: bool,
    needs_confirmation: bool,
    show_turn_stats: bool,
    fields: &TurnFields<D>,
) -> (stats: TurnStats<D>)
    ensures
        stats == turn_stats_spec(is_generating, needs_confirmation, show_turn_stats, *fields),
{
    let spinner = if is_generating {
        if needs_confirmation { Some(Spinner::Sand) } else { Some(Spinner::Running) }
    } else {
        None
    };
    if !show_turn_stats {
        return TurnStats { spinner, show_edit_button: false, elapsed: None, tokens: None };
    }
    let elapsed = if is_generating { fields.turn_elapsed } else { fields.last_turn_duration };
    let tokens = if elapsed.is_some() {
        let t = if is_generating { fields.turn_tokens } else { fields.last_turn_tokens };
        match t {
            Some(n) => if n > 0 { Some(n) } else { None },
            None => None,
        }
    } else {
        None
    };
    TurnStats { spinner, show_edit_button: !is_generating, elapsed, tokens }
}

/// The controls under a thread: the turn statistics, and the action buttons
/// only when the turn is neither generating nor waiting for a confirmation.
pub fn render_thread_controls_stable<D: Copy>(
    is_generating: bool,
    needs_confirmation: bool,
    show_turn_stats: bool,
    fields: &TurnFields<D>,
    action_inputs: ActionInputs,
) -> (controls: ThreadControls<D>)
    ensures
        controls.stats == turn_stats_spec(is_generating, needs_confirmation, show_turn_stats, *fields),
        controls.actions == if !needs_confirmation && !is_generating {
            Some(thread_actions_spec(action_inputs))
        } else {
            None
        },
{
    let stats = render_turn_stats(is_generating, needs_confirmation, show_turn_stats, fields);
    let actions = if !needs_confirmation && !is_generating {
        Some(render_thread_actions(action_inputs))
    } else {
        None
    };
    ThreadControls { stats, actions }
}

/// The index of the last user message among the thread's entries, which
/// "Edit Message" opens for editing.
pub fn last_user_message_index(entries: &Vec<ThreadEntryKind>) -> (ix: Option<usize>)
    ensures
        ix matches Some(i) ==> i < entries@.len() && entries@[i as int] == ThreadEntryKind::UserMessage
            && forall|j: int| i < j < entries@.len() ==> entries@[j] != ThreadEntryKind::UserMessage,
        ix is None ==> forall|j: int| 0 <= j < entries@.len() ==> entries@[j] != ThreadEntryKind::UserMessage,
{
    let mut i = entries.len();
    while i > 0
        invariant
            i <= entries@.len(),
            forall|j: int| i <= j < entries@.len() ==> entries@[j] != ThreadEntryKind::UserMessage,
        decreases i,
    {
        if entries[i - 1] == ThreadEntryKind::UserMessage {
            return Some(i - 1);
        }
        i = i - 1;
    }
    None
}

/// The thread's extra action buttons; see `thread_actions_spec`.
pub fn render_thread_actions(inputs: ActionInputs) -> (actions: ThreadActions)
    ensures
        actions == thread_actions_spec(inputs),
{
    let share = if !inputs.can_share {
        None
    } else if inputs.is_imported_thread {
        Some(ShareButton::Sync)
    } else {
        Some(ShareButton::Share)
    };
    ThreadActions {
        show_feedback: inputs.enable_feedback && inputs.has_telemetry,
        thumbs_up_given: match inputs.feedback {
            Some(ThreadFeedback::Positive) => true,
            _ => false,
        },
        thumbs_down_given: match inputs.feedback {
            Some(ThreadFeedback::Negative) => true,
            _ => false,
        },
        share,
    }
}

/// What the turn statistics show, for every input: a spinner exactly while
/// generating (the waiting one exactly when a confirmation is needed); the
/// edit button exactly for an idle turn with statistics enabled; no duration
/// or token count with statistics disabled, otherwise the duration of the
/// turn shown (the running one while generating, else the last one); and a
/// token count only next to a duration, only a count of that same turn, and
/// never zero.
pub proof fn turn_stats_show_the_right_turn<D>(
    is_generating: bool,
    needs_confirmation: bool,
    show_turn_stats: bool,
    fields: TurnFields<D>,
)
    ensures
        ({
            let stats = turn_stats_spec(is_generating, needs_confirmation, show_turn_stats, fields);
            let turn_tokens = if is_generating { fields.turn_tokens } else { fields.last_turn_tokens };
            &&& (stats.spinner is Some <==> is_generating)
            &&& (stats.spinner == Some(Spinner::Sand) <==> is_generating && needs_confirmation)
            &&& (stats.show_edit_button <==> show_turn_stats && !is_generating)
            &&& (!show_turn_stats ==> stats.elapsed is None && stats.tokens is None)
            &&& (show_turn_stats && is_generating ==> stats.elapsed == fields.turn_elapsed)
            &&& (show_turn_stats && !is_generating ==> stats.elapsed == fields.last_turn_duration)
            &&& (stats.tokens matches Some(n) ==> n > 0 && stats.elapsed is Some && turn_tokens == Some(n))
            &&& (forall|n: u64| stats.elapsed is Some && turn_tokens == Some(n) && n > 0 ==> stats.tokens == Some(n))
        }),
{
}

/// What the thread's extra buttons show, for every input: the feedback
/// buttons exactly when feedback is enabled and telemetry is reported, each
/// marked exactly when it is the feedback given; a share or sync button
/// exactly when sharing is possible, the sync one exactly for an imported
/// thread.
pub proof fn thread_actions_follow_their_inputs(inputs: ActionInputs)
    ensures
        ({
            let actions = thread_actions_spec(inputs);
            &&& (actions.show_feedback <==> inputs.enable_feedback && inputs.has_telemetry)
            &&& (actions.thumbs_up_given <==> inputs.feedback == Some(ThreadFeedback::Positive))
            &&& (actions.thumbs_down_given <==> inputs.feedback == Some(ThreadFeedback::Negative))
            &&& !(actions.thumbs_up_given && actions.thumbs_down_given)
            &&& (actions.share is Some <==> inputs.can_share)
            &&& (actions.share == Some(ShareButton::Sync) <==> inputs.can_share && inputs.is_imported_thread)
            &&& (actions.share == Some(ShareButton::Share) <==> inputs.can_share && !inputs.is_imported_thread)
        }),
{
}

} // verus!

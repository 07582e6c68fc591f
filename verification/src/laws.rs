//! What holds of the popup over every run of events.

use vstd::prelude::*;
use crate::effect::{ends_popup, settled, spawned_command, EffectModel, SpawnOutcome};
use crate::entry::BrowserModel;
use crate::event::{ActionModel, MouseEvent, WindowEvent};
use crate::model::{effect_at, effect_of, next_state, state_after, PopupState};
use crate::render::{rendered, styled};

verus! {

/// Handling a run `first` and then a run `second` leads to the same state as
/// handling the two as one run.
pub proof fn lemma_state_after_concat(
    s: PopupState,
    first: Seq<ActionModel>,
    second: Seq<ActionModel>,
)
    ensures
        state_after(s, first + second) == state_after(state_after(s, first), second),
    decreases second.len(),
{
    if second.len() == 0 {
        assert(first + second =~= first);
    } else {
        lemma_state_after_concat(s, first, second.drop_last());
        assert((first + second).drop_last() =~= first + second.drop_last());
        assert((first + second).last() == second.last());
    }
}

/// The state before the action at index `i + 1` is the state before the
/// action at index `i`, advanced by that action.
pub proof fn lemma_state_after_step(s: PopupState, actions: Seq<ActionModel>, i: int)
    requires
        0 <= i < actions.len(),
    ensures
        state_after(s, actions.take(i + 1)) == next_state(
            state_after(s, actions.take(i)),
            actions[i],
        ),
{
    assert(actions.take(i + 1).drop_last() =~= actions.take(i));
    assert(actions.take(i + 1).last() == actions[i]);
}

/// The popup never forgets: the list of browsers and the arguments to hand
/// on stay as they are, and once
/// the focus was held, or a window position or a pointer position was
/// recorded, that stays so whatever happens afterwards. Each position is
/// therefore set at most once.
pub proof fn law_memory_is_kept(s: PopupState, actions: Seq<ActionModel>)
    ensures
        state_after(s, actions).entries == s.entries,
        state_after(s, actions).arguments == s.arguments,
        s.focused_once ==> state_after(s, actions).focused_once,
        s.window_position is Some ==> state_after(s, actions).window_position
            == s.window_position,
        s.cursor_position is Some ==> state_after(s, actions).cursor_position
            == s.cursor_position,
    decreases actions.len(),
{
    if actions.len() > 0 {
        law_memory_is_kept(s, actions.drop_last());
    }
}

/// As long as no focus event has arrived, the popup has not been focused.
proof fn lemma_unfocused_until_focus(s: PopupState, actions: Seq<ActionModel>)
    requires
        !s.focused_once,
        forall|j: int|
            0 <= j < actions.len() ==> actions[j] != ActionModel::HandleWindowEvent(
                WindowEvent::Focused,
            ),
    ensures
        !state_after(s, actions).focused_once,
    decreases actions.len(),
{
    if actions.len() > 0 {
        let front = actions.drop_last();
        assert forall|j: int| 0 <= j < front.len() implies front[j]
            != ActionModel::HandleWindowEvent(WindowEvent::Focused) by {
            assert(front[j] == actions[j]);
        }
        lemma_unfocused_until_focus(s, front);
    }
}

/// As long as the window has reported no position, none is recorded.
proof fn lemma_no_window_position_until_moved(s: PopupState, actions: Seq<ActionModel>)
    requires
        s.window_position is None,
        forall|j: int| 0 <= j < actions.len() ==> !(#[trigger] actions[j]).is_window_moved(),
    ensures
        state_after(s, actions).window_position is None,
    decreases actions.len(),
{
    if actions.len() > 0 {
        let front = actions.drop_last();
        assert forall|j: int| 0 <= j < front.len() implies !(#[trigger] front[j])
            .is_window_moved() by {
            assert(front[j] == actions[j]);
        }
        lemma_no_window_position_until_moved(s, front);
    }
}

/// From the first pointer movement on, a pointer position is recorded.
proof fn lemma_cursor_position_after_move(
    s: PopupState,
    actions: Seq<ActionModel>,
    k: int,
    i: int,
)
    requires
        0 <= k < i <= actions.len(),
        actions[k].is_cursor_moved(),
    ensures
        state_after(s, actions.take(i)).cursor_position is Some,
{
    lemma_state_after_step(s, actions, k);
    let reached = state_after(s, actions.take(k + 1));
    assert(reached.cursor_position is Some);
    let rest = actions.subrange(k + 1, i);
    assert(actions.take(i) =~= actions.take(k + 1) + rest);
    lemma_state_after_concat(s, actions.take(k + 1), rest);
    law_memory_is_kept(reached, rest);
}

/// Losing the focus before the focus was ever gained does not close the
/// popup: in a run that starts unfocused, an unfocus event that no focus
/// event precedes asks for nothing.
pub proof fn law_unfocus_before_focus_is_ignored(
    s: PopupState,
    actions: Seq<ActionModel>,
    i: int,
)
    requires
        !s.focused_once,
        0 <= i < actions.len(),
        actions[i] == ActionModel::HandleWindowEvent(WindowEvent::Unfocused),
        forall|j: int|
            0 <= j < i ==> actions[j] != ActionModel::HandleWindowEvent(WindowEvent::Focused),
    ensures
        effect_at(s, actions, i) == EffectModel::Idle,
        !ends_popup(effect_at(s, actions, i)),
{
    lemma_unfocused_until_focus(s, actions.take(i));
}

/// Losing the focus after it was gained closes the popup: in any run, an
/// unfocus event that some focus event precedes asks for the window to be
/// closed.
pub proof fn law_unfocus_after_focus_closes(
    s: PopupState,
    actions: Seq<ActionModel>,
    j: int,
    i: int,
)
    requires
        0 <= j < i < actions.len(),
        actions[j] == ActionModel::HandleWindowEvent(WindowEvent::Focused),
        actions[i] == ActionModel::HandleWindowEvent(WindowEvent::Unfocused),
    ensures
        effect_at(s, actions, i) == EffectModel::Close,
        ends_popup(effect_at(s, actions, i)),
{
    lemma_state_after_step(s, actions, j);
    let reached = state_after(s, actions.take(j + 1));
    let rest = actions.subrange(j + 1, i);
    assert(actions.take(i) =~= actions.take(j + 1) + rest);
    lemma_state_after_concat(s, actions.take(j + 1), rest);
    law_memory_is_kept(reached, rest);
}

/// The window is moved at most once: no run holds two actions that both ask
/// for a move. In particular a pointer movement that follows one already
/// handled asks for nothing.
pub proof fn law_at_most_one_move(s: PopupState, actions: Seq<ActionModel>, i: int, j: int)
    requires
        0 <= i < j < actions.len(),
    ensures
        !(effect_at(s, actions, i) is MoveTo && effect_at(s, actions, j) is MoveTo),
{
    if effect_at(s, actions, i) is MoveTo {
        lemma_cursor_position_after_move(s, actions, i, j);
    }
}

/// A pointer position that arrives before any window position is used up:
/// if the window's position is unknown and no window movement precedes the
/// pointer movement at index `k`, then no action of the run asks for a move,
/// not even where a window movement arrives later.
pub proof fn law_early_cursor_never_moves_window(
    s: PopupState,
    actions: Seq<ActionModel>,
    k: int,
)
    requires
        s.window_position is None,
        0 <= k < actions.len(),
        actions[k].is_cursor_moved(),
        forall|j: int| 0 <= j < k ==> !(#[trigger] actions[j]).is_window_moved(),
    ensures
        forall|i: int| 0 <= i < actions.len() ==> !(#[trigger] effect_at(s, actions, i) is MoveTo),
{
    assert forall|i: int| 0 <= i < actions.len() implies !(#[trigger] effect_at(s, actions, i)
        is MoveTo) by {
        if i <= k {
            let front = actions.take(i);
            assert forall|j: int| 0 <= j < front.len() implies !(#[trigger] front[j])
                .is_window_moved() by {
                assert(front[j] == actions[j]);
            }
            lemma_no_window_position_until_moved(s, front);
        } else {
            lemma_cursor_position_after_move(s, actions, k, i);
        }
    }
}

/// The first pointer movement that finds the window's position known moves
/// the window to the pointer's position plus the window's, one pixel further
/// right and down; the positions are those this very run recorded.
pub proof fn law_move_targets_cursor(
    s: PopupState,
    actions: Seq<ActionModel>,
    i: int,
    x: i32,
    y: i32,
)
    requires
        0 <= i < actions.len(),
        actions[i] == ActionModel::HandleMouseEvent(MouseEvent::CursorMoved { x, y }),
        state_after(s, actions.take(i)).cursor_position is None,
        state_after(s, actions.take(i)).window_position is Some,
    ensures
        effect_at(s, actions, i) == (EffectModel::MoveTo {
            x: x + state_after(s, actions.take(i)).window_position->0.x + 1,
            y: y + state_after(s, actions.take(i)).window_position->0.y + 1,
        }),
{
}

/// The popup shows exactly one button per browser, in the list's order,
/// labelled with the browser's title and opening the browser's command, and
/// below them exactly one Cancel button.
pub proof fn law_one_button_per_entry_then_cancel(entries: Seq<BrowserModel>)
    ensures
        rendered(entries).len() == entries.len() + 1,
        forall|i: int|
            0 <= i < entries.len() ==> #[trigger] rendered(entries)[i] == styled(
                entries[i].title,
                ActionModel::Open(entries[i].command),
            ),
        rendered(entries).last() == styled("Cancel"@, ActionModel::Cancel),
        forall|i: int|
            0 <= i < rendered(entries).len() ==> (#[trigger] rendered(entries)[i].on_press
                == ActionModel::Cancel <==> i == entries.len()),
{
}

/// Pressing a browser's button, in whatever state, launches that browser's
/// command and no other, with the popup's own arguments, ends the popup and
/// leaves the state as it was; and however the launch goes, the window is
/// closed after it.
pub proof fn law_selecting_launches_that_entry(s: PopupState, i: int)
    requires
        0 <= i < s.entries.len(),
    ensures
        effect_of(s, rendered(s.entries)[i].on_press) == (EffectModel::Launch {
            command: s.entries[i].command,
            arguments: s.arguments,
        }),
        spawned_command(effect_of(s, rendered(s.entries)[i].on_press)) == Some(
            s.entries[i].command,
        ),
        ends_popup(effect_of(s, rendered(s.entries)[i].on_press)),
        next_state(s, rendered(s.entries)[i].on_press) == s,
        forall|outcome: SpawnOutcome| #[trigger] settled(outcome) == EffectModel::Close,
{
}

/// Pressing Cancel, in whatever state, closes the popup and launches
/// nothing.
pub proof fn law_cancel_closes_without_launch(s: PopupState)
    ensures
        rendered(s.entries).last().on_press == ActionModel::Cancel,
        effect_of(s, ActionModel::Cancel) == EffectModel::Close,
        ends_popup(effect_of(s, ActionModel::Cancel)),
        spawned_command(effect_of(s, ActionModel::Cancel)) is None,
        next_state(s, ActionModel::Cancel) == s,
{
}

/// Only a pressed browser button launches anything: an action that is not
/// `Open` starts no command, in whatever state.
pub proof fn law_only_open_launches(s: PopupState, action: ActionModel)
    ensures
        spawned_command(effect_of(s, action)) is Some <==> action is Open,
        action matches ActionModel::Open(command) ==> spawned_command(effect_of(s, action))
            == Some(command),
{
}

/// A launch that fails ends the popup exactly as one that succeeds: the
/// window is closed and the failure is passed on to nobody.
pub proof fn law_failed_launch_still_closes()
    ensures
        settled(SpawnOutcome::Failed) == EffectModel::Close,
        settled(SpawnOutcome::Failed) == settled(SpawnOutcome::Started),
{
}

} // verus!

//! What the popup asks its host to do after an event.

use vstd::prelude::*;

verus! {

/// The single thing the host must carry out after an event was handled.
#[derive(Clone, Debug, PartialEq, Eq)]
pub enum Effect {
    /// Nothing to do.
    Idle,
    /// Close the window, which ends the program.
    Close,
    /// Move the window so that its corner sits at this screen position. The
    /// coordinates are exact sums of 32-bit positions, hence the wider type.
    MoveTo { x: i64, y: i64 },
    /// Start `command` as a detached process with `arguments` as its
    /// arguments, then report how that went to [`after_spawn`] and carry out
    /// what it answers.
    Launch { command: String, arguments: Vec<String> },
}

/// The mathematical value of an [`Effect`].
pub enum EffectModel {
    Idle,
    Close,
    MoveTo { x: int, y: int },
    Launch { command: Seq<char>, arguments: Seq<Seq<char>> },
}

/// The values of a list of strings, in the list's order.
pub open spec fn string_models(list: Seq<String>) -> Seq<Seq<char>> {
    Seq::new(list.len(), |i: int| list[i]@)
}

impl View for Effect {
    type V = EffectModel;

    open spec fn view(&self) -> EffectModel {
        match *self {
            Effect::Idle => EffectModel::Idle,
            Effect::Close => EffectModel::Close,
            Effect::MoveTo { x, y } => EffectModel::MoveTo { x: x as int, y: y as int },
            Effect::Launch { command, arguments } => EffectModel::Launch {
                command: command@,
                arguments: string_models(arguments@),
            },
        }
    }
}

/// How an attempt to start a process ended.
#[derive(Clone, Copy, Debug, PartialEq, Eq)]
pub enum SpawnOutcome {
    /// The process is running; nobody waits for it.
    Started,
    /// The process could not be started (not found, not permitted, no
    /// resources left).
    Failed,
}

/// Whether an effect ends the popup: closing does, and so does launching,
/// since every launch is followed by a close.
pub open spec fn ends_popup(effect: EffectModel) -> bool {
    effect is Close || effect is Launch
}

/// The command that an effect starts, if it starts one.
pub open spec fn spawned_command(effect: EffectModel) -> Option<Seq<char>> {
    match effect {
        EffectModel::Launch { command, .. } => Some(command),
        _ => None,
    }
}

/// What follows a launch. A launch is fire-and-forget: the popup closes
/// whether or not the process came up, and a failure is shown to nobody.
pub open spec fn settled(outcome: SpawnOutcome) -> EffectModel {
    EffectModel::Close
}

/// Decides what the host does once it has tried to start the command of an
/// [`Effect::Launch`]: close the window, whatever the outcome.
pub fn after_spawn(outcome: SpawnOutcome) -> (effect: Effect)
    ensures
        effect@ == settled(outcome),
{
    match outcome {
        SpawnOutcome::Started => Effect::Close,
        SpawnOutcome::Failed => Effect::Close,
    }
}

} // verus!

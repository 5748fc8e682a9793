//! The dock/taskbar presence of the process, and the Main window's close
//! gesture, which is the one thing that hides it.
//!
//! The host carries out `SetPresence` and `Activate` with the platform's own
//! calls; where a platform has no such notion they do nothing, and never fail.
use vstd::prelude::*;
use crate::shell::{Effect, Presence, Shell, WindowRole, apply_all, emit, lemma_apply_push};

verus! {

/// Hides the dock/taskbar entry, leaving the process running.
pub fn hide_dock_icon(shell: &mut Shell, effects: &mut Vec<Effect>)
    ensures
        final(effects)@ == old(effects)@.push(Effect::SetPresence(Presence::Accessory)),
        *final(shell) == (Shell { presence: Presence::Accessory, ..*old(shell) }),
{
    emit(shell, effects, Effect::SetPresence(Presence::Accessory));
}

/// Shows the dock/taskbar entry again.
pub fn show_dock_icon(shell: &mut Shell, effects: &mut Vec<Effect>)
    ensures
        final(effects)@ == old(effects)@.push(Effect::SetPresence(Presence::Regular)),
        *final(shell) == (Shell { presence: Presence::Regular, ..*old(shell) }),
{
    emit(shell, effects, Effect::SetPresence(Presence::Regular));
}

/// Shows the dock/taskbar entry and brings the process to the foreground.
pub fn show_dock_icon_and_activate(shell: &mut Shell, effects: &mut Vec<Effect>)
    ensures
        final(effects)@ == old(effects)@.push(Effect::SetPresence(Presence::Regular)).push(
            Effect::Activate,
        ),
        *final(shell) == (Shell { presence: Presence::Regular, ..*old(shell) }),
{
    emit(shell, effects, Effect::SetPresence(Presence::Regular));
    emit(shell, effects, Effect::Activate);
}

/// The effects of the Main window's close gesture: the window is hidden
/// instead of destroyed, the dock entry is hidden, and the close itself is
/// cancelled so the process keeps running in the background.
pub open spec fn close_requested_effects() -> Seq<Effect> {
    seq![
        Effect::Hide(WindowRole::Main),
        Effect::SetPresence(Presence::Accessory),
        Effect::PreventClose,
    ]
}

/// Handles the Main window's close gesture.
pub fn handle_main_close_requested(shell: &mut Shell) -> (r: Vec<Effect>)
    ensures
        r@ == close_requested_effects(),
        *final(shell) == apply_all(*old(shell), r@),
{
    let ghost s0 = *shell;
    let mut effects: Vec<Effect> = Vec::new();
    emit(shell, &mut effects, Effect::Hide(WindowRole::Main));
    proof {
        lemma_apply_push(s0, Seq::empty(), Effect::Hide(WindowRole::Main));
        assert(Seq::<Effect>::empty().push(Effect::Hide(WindowRole::Main)) =~= effects@);
    }
    let ghost e1 = effects@;
    hide_dock_icon(shell, &mut effects);
    proof {
        lemma_apply_push(s0, e1, Effect::SetPresence(Presence::Accessory));
    }
    let ghost e2 = effects@;
    emit(shell, &mut effects, Effect::PreventClose);
    proof {
        lemma_apply_push(s0, e2, Effect::PreventClose);
        assert(effects@ =~= close_requested_effects());
    }
    effects
}

} // verus!

//! The tray icon's state machine: a primary click toggles the popover, the
//! tray menu reopens the Main window or quits, and the popover hides itself
//! when it loses focus.
use vstd::prelude::*;
use crate::placement::{Point, Size, TrayEdge, placement, popover_placement};
use crate::presence::{show_dock_icon, show_dock_icon_and_activate};
use crate::shell::{
    Effect, Presence, Shell, Visibility, WindowRole, apply_all, is_visible, lemma_apply_push, record,
};
use crate::text::same_text;

verus! {

/// A mouse button, as the tray reports it.
#[derive(Clone, Copy, Debug, PartialEq, Eq, Structural)]
pub enum MouseButton {
    Left,
    Right,
    Middle,
}

/// Whether a click event reports the press or the release.
#[derive(Clone, Copy, Debug, PartialEq, Eq, Structural)]
pub enum ButtonState {
    Up,
    Down,
}

/// An event on the tray icon.
#[derive(Clone, Copy, Debug, PartialEq, Eq, Structural)]
pub enum TrayEvent {
    Click { button: MouseButton, state: ButtonState, position: Point },
    Other,
}

/// What a tray menu identifier asks for.
#[derive(Clone, Copy, Debug, PartialEq, Eq, Structural)]
pub enum TrayCommand {
    ShowMain,
    Quit,
    Unknown,
}

pub open spec fn move_popover_effects(
    edge: TrayEdge,
    size: Option<Size>,
    click: Option<Point>,
    display: Option<Size>,
) -> Seq<Effect> {
    match placement(edge, size, click, display) {
        Some(p) => seq![Effect::MoveTo(WindowRole::Popover, p.0 as i64, p.1 as i64)],
        None => seq![],
    }
}

/// Showing the popover: move it where it belongs, if that can be worked
/// out, then show and focus it.
pub open spec fn show_popover_effects(
    edge: TrayEdge,
    size: Option<Size>,
    click: Option<Point>,
    display: Option<Size>,
) -> Seq<Effect> {
    move_popover_effects(edge, size, click, display) + seq![
        Effect::Show(WindowRole::Popover),
        Effect::Focus(WindowRole::Popover),
    ]
}

/// A primary click: nothing without a popover, hide a visible one, show a
/// hidden one next to the click.
pub open spec fn toggle_effects(
    s: Shell,
    edge: TrayEdge,
    size: Option<Size>,
    click: Point,
    display: Option<Size>,
) -> Seq<Effect> {
    if s.popover is None {
        seq![]
    } else if is_visible(s.popover) {
        seq![Effect::Hide(WindowRole::Popover)]
    } else {
        show_popover_effects(edge, size, Some(click), display)
    }
}

/// Only the release of the left button counts as a click.
pub open spec fn tray_icon_effects(
    s: Shell,
    event: TrayEvent,
    edge: TrayEdge,
    size: Option<Size>,
    display: Option<Size>,
) -> Seq<Effect> {
    match event {
        TrayEvent::Click { button: MouseButton::Left, state: ButtonState::Up, position } => {
            toggle_effects(s, edge, size, position, display)
        },
        _ => seq![],
    }
}

pub open spec fn tray_command_of(id: Seq<char>) -> TrayCommand {
    if id == "main"@ {
        TrayCommand::ShowMain
    } else if id == "quit"@ {
        TrayCommand::Quit
    } else {
        TrayCommand::Unknown
    }
}

/// Reopening the Main window from the tray: show and focus it, hide the
/// popover, show the dock entry and bring the process forward. Nothing
/// happens when there is no Main window.
pub open spec fn show_main_effects(s: Shell) -> Seq<Effect> {
    if s.main is None {
        seq![]
    } else {
        seq![Effect::Show(WindowRole::Main), Effect::Focus(WindowRole::Main)] + (if s.popover is Some {
            seq![Effect::Hide(WindowRole::Popover)]
        } else {
            seq![]
        }) + seq![
            Effect::SetPresence(Presence::Regular),
            Effect::Activate,
            Effect::SetPresence(Presence::Regular),
        ]
    }
}

pub open spec fn tray_menu_effects(s: Shell, id: Seq<char>) -> Seq<Effect> {
    match tray_command_of(id) {
        TrayCommand::ShowMain => show_main_effects(s),
        TrayCommand::Quit => seq![Effect::Exit(0)],
        TrayCommand::Unknown => seq![],
    }
}

/// Shows the popover, placed from its size and the click point or, without
/// one, the primary display.
pub fn show_popover_near_tray(
    shell: &mut Shell,
    edge: TrayEdge,
    size: Option<Size>,
    click: Option<Point>,
    display: Option<Size>,
) -> (r: Vec<Effect>)
    ensures
        r@ == show_popover_effects(edge, size, click, display),
        *final(shell) == apply_all(*old(shell), r@),
{
    let ghost s0 = *shell;
    let mut effects: Vec<Effect> = Vec::new();
    match popover_placement(edge, size, click, display) {
        Some(p) => record(Ghost(s0), shell, &mut effects, Effect::MoveTo(WindowRole::Popover, p.x, p.y)),
        None => {},
    }
    assert(effects@ =~= move_popover_effects(edge, size, click, display));
    record(Ghost(s0), shell, &mut effects, Effect::Show(WindowRole::Popover));
    record(Ghost(s0), shell, &mut effects, Effect::Focus(WindowRole::Popover));
    assert(effects@ =~= show_popover_effects(edge, size, click, display));
    effects
}

/// Handles an event on the tray icon.
pub fn handle_tray_icon_event(
    shell: &mut Shell,
    event: TrayEvent,
    edge: TrayEdge,
    size: Option<Size>,
    display: Option<Size>,
) -> (r: Vec<Effect>)
    ensures
        r@ == tray_icon_effects(*old(shell), event, edge, size, display),
        *final(shell) == apply_all(*old(shell), r@),
{
    match event {
        TrayEvent::Click { button: MouseButton::Left, state: ButtonState::Up, position } => {
            match shell.get(WindowRole::Popover) {
                None => Vec::new(),
                Some(Visibility::Hidden) => show_popover_near_tray(shell, edge, size, Some(position), display),
                Some(_) => {
                    let ghost s0 = *shell;
                    let mut effects: Vec<Effect> = Vec::new();
                    record(Ghost(s0), shell, &mut effects, Effect::Hide(WindowRole::Popover));
                    assert(effects@ =~= seq![Effect::Hide(WindowRole::Popover)]);
                    effects
                },
            }
        },
        _ => Vec::new(),
    }
}

/// Reads a tray menu identifier.
pub fn tray_command(id: &str) -> (r: TrayCommand)
    ensures
        r == tray_command_of(id@),
{
    if same_text(id, "main") {
        TrayCommand::ShowMain
    } else if same_text(id, "quit") {
        TrayCommand::Quit
    } else {
        TrayCommand::Unknown
    }
}

/// Handles a choice in the tray menu; unknown identifiers change nothing.
pub fn handle_tray_menu_event(shell: &mut Shell, id: &str) -> (r: Vec<Effect>)
    ensures
        r@ == tray_menu_effects(*old(shell), id@),
        *final(shell) == apply_all(*old(shell), r@),
{
    let ghost s0 = *shell;
    let mut effects: Vec<Effect> = Vec::new();
    match tray_command(id) {
        TrayCommand::ShowMain => {
            let has_popover = shell.get(WindowRole::Popover).is_some();
            if shell.get(WindowRole::Main).is_some() {
                record(Ghost(s0), shell, &mut effects, Effect::Show(WindowRole::Main));
                record(Ghost(s0), shell, &mut effects, Effect::Focus(WindowRole::Main));
                if has_popover {
                    record(Ghost(s0), shell, &mut effects, Effect::Hide(WindowRole::Popover));
                }
                let ghost e1 = effects@;
                show_dock_icon_and_activate(shell, &mut effects);
                proof {
                    lemma_apply_push(s0, e1, Effect::SetPresence(Presence::Regular));
                    lemma_apply_push(s0, e1.push(Effect::SetPresence(Presence::Regular)), Effect::Activate);
                }
                let ghost e2 = effects@;
                show_dock_icon(shell, &mut effects);
                proof {
                    lemma_apply_push(s0, e2, Effect::SetPresence(Presence::Regular));
                }
            }
            assert(effects@ =~= show_main_effects(s0));
        },
        TrayCommand::Quit => {
            record(Ghost(s0), shell, &mut effects, Effect::Exit(0));
            assert(effects@ =~= seq![Effect::Exit(0)]);
        },
        TrayCommand::Unknown => {},
    }
    effects
}

/// The popover hides whenever it loses input focus.
pub fn handle_popover_focus_lost(shell: &mut Shell) -> (r: Vec<Effect>)
    ensures
        r@ == seq![Effect::Hide(WindowRole::Popover)],
        *final(shell) == apply_all(*old(shell), r@),
{
    let ghost s0 = *shell;
    let mut effects: Vec<Effect> = Vec::new();
    record(Ghost(s0), shell, &mut effects, Effect::Hide(WindowRole::Popover));
    assert(effects@ =~= seq![Effect::Hide(WindowRole::Popover)]);
    effects
}

} // verus!

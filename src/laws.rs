//! Properties of the shell that hold across several events.
use vstd::prelude::*;
use crate::menu::{about_effects, app_menu_effects, open_effects};
use crate::placement::{Point, Size, TrayEdge};
use crate::presence::close_requested_effects;
use crate::shell::{
    Effect, Presence, Shell, Visibility, WindowRole, apply_all, apply_effect, is_visible,
    lemma_apply_concat, lemma_apply_push,
};
use crate::tray::{
    ButtonState, MouseButton, TrayEvent, move_popover_effects, tray_icon_effects, tray_menu_effects,
};

verus! {

proof fn lemma_apply_one(s: Shell, a: Effect)
    ensures
        apply_all(s, seq![a]) == apply_effect(s, a),
{
    lemma_apply_push(s, Seq::empty(), a);
    assert(seq![a] =~= Seq::<Effect>::empty().push(a));
}

proof fn lemma_apply_two(s: Shell, a: Effect, b: Effect)
    ensures
        apply_all(s, seq![a, b]) == apply_effect(apply_effect(s, a), b),
{
    lemma_apply_one(s, a);
    lemma_apply_push(s, seq![a], b);
    assert(seq![a, b] =~= seq![a].push(b));
}

proof fn lemma_apply_three(s: Shell, a: Effect, b: Effect, c: Effect)
    ensures
        apply_all(s, seq![a, b, c]) == apply_effect(apply_effect(apply_effect(s, a), b), c),
{
    lemma_apply_two(s, a, b);
    lemma_apply_push(s, seq![a, b], c);
    assert(seq![a, b, c] =~= seq![a, b].push(c));
}

/// The release of a left click on the tray icon at a point.
pub open spec fn primary_click(p: Point) -> TrayEvent {
    TrayEvent::Click { button: MouseButton::Left, state: ButtonState::Up, position: p }
}

/// A primary click as the tray handler receives it: where the click was,
/// the popover's size and the primary display's size at that moment.
pub type ClickInput = (Point, Option<Size>, Option<Size>);

/// The model after a series of primary clicks on the tray icon.
pub open spec fn after_clicks(s: Shell, clicks: Seq<ClickInput>, edge: TrayEdge) -> Shell
    decreases clicks.len(),
{
    if clicks.len() == 0 {
        s
    } else {
        let prev = after_clicks(s, clicks.drop_last(), edge);
        let (p, size, display) = clicks.last();
        apply_all(prev, tray_icon_effects(prev, primary_click(p), edge, size, display))
    }
}

/// One primary click keeps the popover's existence and flips its
/// visibility when it exists.
pub proof fn lemma_click_toggles(
    s: Shell,
    p: Point,
    edge: TrayEdge,
    size: Option<Size>,
    display: Option<Size>,
)
    ensures
        ({
            let t = apply_all(s, tray_icon_effects(s, primary_click(p), edge, size, display));
            &&& (t.popover is Some) == (s.popover is Some)
            &&& s.popover is Some ==> is_visible(t.popover) == !is_visible(s.popover)
            &&& s.popover is None ==> t.popover is None
        }),
{
    let es = tray_icon_effects(s, primary_click(p), edge, size, display);
    if s.popover is None {
        assert(es =~= Seq::<Effect>::empty());
    } else if is_visible(s.popover) {
        lemma_apply_one(s, Effect::Hide(WindowRole::Popover));
    } else {
        let moves = move_popover_effects(edge, size, Some(p), display);
        let shows = seq![Effect::Show(WindowRole::Popover), Effect::Focus(WindowRole::Popover)];
        lemma_apply_concat(s, moves, shows);
        let m = apply_all(s, moves);
        if moves.len() == 0 {
            assert(m == s);
        } else {
            lemma_apply_one(s, moves[0]);
            assert(moves =~= seq![moves[0]]);
        }
        assert(m.popover == s.popover);
        lemma_apply_two(m, Effect::Show(WindowRole::Popover), Effect::Focus(WindowRole::Popover));
    }
}

proof fn lemma_clicks_parity(s: Shell, clicks: Seq<ClickInput>, edge: TrayEdge)
    ensures
        ({
            let t = after_clicks(s, clicks, edge);
            &&& (t.popover is Some) == (s.popover is Some)
            &&& s.popover is None ==> t.popover is None
            &&& s.popover is Some ==> is_visible(t.popover) == (if clicks.len() % 2 == 0 {
                is_visible(s.popover)
            } else {
                !is_visible(s.popover)
            })
        }),
    decreases clicks.len(),
{
    if clicks.len() > 0 {
        lemma_clicks_parity(s, clicks.drop_last(), edge);
        let prev = after_clicks(s, clicks.drop_last(), edge);
        let (p, size, display) = clicks.last();
        lemma_click_toggles(prev, p, edge, size, display);
    }
}

/// Toggling in pairs: after an even number of primary clicks on the tray
/// icon the popover is visible exactly when it was before them.
pub proof fn lemma_click_pairs_restore_popover(s: Shell, clicks: Seq<ClickInput>, edge: TrayEdge)
    requires
        clicks.len() % 2 == 0,
    ensures
        is_visible(after_clicks(s, clicks, edge).popover) == is_visible(s.popover),
{
    lemma_clicks_parity(s, clicks, edge);
}

/// "quit", from the tray menu or from the application menu, asks the host to
/// exit with code 0 whatever the windows look like.
pub proof fn lemma_quit_exits(s: Shell)
    ensures
        tray_menu_effects(s, "quit"@) == seq![Effect::Exit(0)],
        app_menu_effects(s, "quit"@) == seq![Effect::Exit(0)],
        apply_all(s, seq![Effect::Exit(0)]).exit_code == Some(0i32),
{
    reveal_strlit("quit");
    reveal_strlit("main");
    reveal_strlit("open");
    reveal_strlit("close");
    assert("quit"@ != "main"@) by {
        assert("quit"@[0] != "main"@[0]);
    }
    assert("quit"@ != "open"@) by {
        assert("quit"@[0] != "open"@[0]);
    }
    assert("quit"@ != "close"@) by {
        assert("quit"@[0] != "close"@[0]);
    }
    lemma_apply_one(s, Effect::Exit(0));
}

/// The close gesture hides the Main window without destroying it and hides
/// the dock entry; afterwards both the tray's "main" and the menu's "open"
/// bring it back visible and focused, and "main" restores the dock entry.
pub proof fn lemma_close_then_reopen(s: Shell)
    requires
        s.main is Some,
    ensures
        ({
            let t = apply_all(s, close_requested_effects());
            &&& t.main == Some(Visibility::Hidden)
            &&& t.presence == Presence::Accessory
            &&& apply_all(t, tray_menu_effects(t, "main"@)).main == Some(Visibility::Focused)
            &&& apply_all(t, tray_menu_effects(t, "main"@)).presence == Presence::Regular
            &&& apply_all(t, app_menu_effects(t, "open"@)).main == Some(Visibility::Focused)
        }),
{
    reveal_strlit("main");
    reveal_strlit("open");
    lemma_apply_three(s, Effect::Hide(WindowRole::Main), Effect::SetPresence(Presence::Accessory), Effect::PreventClose);
    let t = apply_all(s, close_requested_effects());
    assert(t.main == Some(Visibility::Hidden));

    let front = seq![Effect::Show(WindowRole::Main), Effect::Focus(WindowRole::Main)];
    let mid = if t.popover is Some {
        seq![Effect::Hide(WindowRole::Popover)]
    } else {
        seq![]
    };
    let back = seq![
        Effect::SetPresence(Presence::Regular),
        Effect::Activate,
        Effect::SetPresence(Presence::Regular),
    ];
    assert(tray_menu_effects(t, "main"@) == front + mid + back);
    lemma_apply_concat(t, front + mid, back);
    lemma_apply_concat(t, front, mid);
    lemma_apply_two(t, Effect::Show(WindowRole::Main), Effect::Focus(WindowRole::Main));
    let u = apply_all(t, front);
    assert(u.main == Some(Visibility::Focused));
    if t.popover is Some {
        lemma_apply_one(u, Effect::Hide(WindowRole::Popover));
    } else {
        assert(apply_all(u, mid) == u);
    }
    let v = apply_all(u, mid);
    assert(v.main == Some(Visibility::Focused));
    lemma_apply_three(v, Effect::SetPresence(Presence::Regular), Effect::Activate, Effect::SetPresence(Presence::Regular));

    assert(app_menu_effects(t, "open"@) == open_effects(t));
    lemma_apply_two(t, Effect::Show(WindowRole::Main), Effect::Focus(WindowRole::Main));
}

/// Asking for the About window twice in a row: the second request only
/// shows and focuses the window that the first one made or showed; it
/// creates nothing and changes nothing else.
pub proof fn lemma_about_twice_focuses(s: Shell)
    ensures
        ({
            let t = apply_all(s, about_effects(s));
            &&& t.about == Some(Visibility::Focused)
            &&& about_effects(t) == seq![Effect::Show(WindowRole::About), Effect::Focus(WindowRole::About)]
            &&& !about_effects(t).contains(Effect::CreateAbout)
            &&& apply_all(t, about_effects(t)) == t
        }),
{
    if s.about is Some {
        lemma_apply_two(s, Effect::Show(WindowRole::About), Effect::Focus(WindowRole::About));
    } else {
        lemma_apply_one(s, Effect::CreateAbout);
    }
    let t = apply_all(s, about_effects(s));
    lemma_apply_two(t, Effect::Show(WindowRole::About), Effect::Focus(WindowRole::About));
    let es = about_effects(t);
    assert(es[0] != Effect::CreateAbout && es[1] != Effect::CreateAbout);
    assert(apply_effect(t, Effect::Show(WindowRole::About)) =~= t);
}

} // verus!

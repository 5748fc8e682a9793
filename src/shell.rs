//! The shell's model of its windows and of its dock/taskbar presence.
//!
//! A `Shell` is a snapshot of the window registry (which roles have a live
//! window, and how visible each one is), the presence flag and, once quit was
//! chosen, the exit code. Every handler mutates the snapshot and returns the
//! list of `Effect`s that the host must perform on the real windowing toolkit;
//! the model after a handler is always the old model with those effects
//! applied in order.
use vstd::prelude::*;

verus! {

/// The logical role of a window.
#[derive(Clone, Copy, Debug, PartialEq, Eq, Structural)]
pub enum WindowRole {
    Main,
    Popover,
    About,
}

/// How visible a live window is.
#[derive(Clone, Copy, Debug, PartialEq, Eq, Structural)]
pub enum Visibility {
    Hidden,
    Shown,
    Focused,
}

/// Whether the process shows a dock/taskbar entry.
#[derive(Clone, Copy, Debug, PartialEq, Eq, Structural)]
pub enum Presence {
    Regular,
    Accessory,
}

/// One action for the host to carry out on the windowing toolkit.
#[derive(Clone, Copy, Debug, PartialEq, Eq, Structural)]
pub enum Effect {
    Show(WindowRole),
    Hide(WindowRole),
    Focus(WindowRole),
    MoveTo(WindowRole, i64, i64),
    CreateAbout,
    SetPresence(Presence),
    Activate,
    PreventClose,
    Exit(i32),
}

/// The window registry, the presence flag and the exit request.
#[derive(Clone, Copy, Debug, PartialEq, Eq, Structural)]
pub struct Shell {
    pub main: Option<Visibility>,
    pub popover: Option<Visibility>,
    pub about: Option<Visibility>,
    pub presence: Presence,
    pub exit_code: Option<i32>,
}

pub open spec fn is_visible(v: Option<Visibility>) -> bool {
    v == Some(Visibility::Shown) || v == Some(Visibility::Focused)
}

impl WindowRole {
    /// The label under which the toolkit registers the window of this role.
    pub open spec fn spec_label(self) -> Seq<char> {
        match self {
            WindowRole::Main => seq!['m', 'a', 'i', 'n'],
            WindowRole::Popover => seq!['p', 'o', 'p', 'o', 'v', 'e', 'r'],
            WindowRole::About => seq!['a', 'b', 'o', 'u', 't'],
        }
    }

    pub fn label(&self) -> (r: &'static str)
        ensures
            r@ == self.spec_label(),
    {
        match self {
            WindowRole::Main => {
                let r = "main";
                proof {
                    reveal_strlit("main");
                }
                assert(r@ =~= self.spec_label());
                r
            },
            WindowRole::Popover => {
                let r = "popover";
                proof {
                    reveal_strlit("popover");
                }
                assert(r@ =~= self.spec_label());
                r
            },
            WindowRole::About => {
                let r = "about";
                proof {
                    reveal_strlit("about");
                }
                assert(r@ =~= self.spec_label());
                r
            },
        }
    }
}

impl Shell {
    pub open spec fn window(self, role: WindowRole) -> Option<Visibility> {
        match role {
            WindowRole::Main => self.main,
            WindowRole::Popover => self.popover,
            WindowRole::About => self.about,
        }
    }

    pub open spec fn with_window(self, role: WindowRole, v: Option<Visibility>) -> Shell {
        match role {
            WindowRole::Main => Shell { main: v, ..self },
            WindowRole::Popover => Shell { popover: v, ..self },
            WindowRole::About => Shell { about: v, ..self },
        }
    }

    /// A shell whose windows are all absent, shown in the dock, not quitting.
    pub fn new() -> (r: Shell)
        ensures
            r.main is None,
            r.popover is None,
            r.about is None,
            r.presence == Presence::Regular,
            r.exit_code is None,
    {
        Shell { main: None, popover: None, about: None, presence: Presence::Regular, exit_code: None }
    }

    /// Looks up the window of a role; `None` when no such window exists.
    pub fn get(&self, role: WindowRole) -> (r: Option<Visibility>)
        ensures
            r == self.window(role),
    {
        match role {
            WindowRole::Main => self.main,
            WindowRole::Popover => self.popover,
            WindowRole::About => self.about,
        }
    }

    fn set(&mut self, role: WindowRole, v: Option<Visibility>)
        ensures
            *final(self) == old(self).with_window(role, v),
    {
        match role {
            WindowRole::Main => self.main = v,
            WindowRole::Popover => self.popover = v,
            WindowRole::About => self.about = v,
        }
    }

    /// Applies one effect to the model.
    pub fn apply(&mut self, e: Effect)
        ensures
            *final(self) == apply_effect(*old(self), e),
    {
        match e {
            Effect::Show(role) => {
                if let Some(Visibility::Hidden) = self.get(role) {
                    self.set(role, Some(Visibility::Shown));
                }
            },
            Effect::Hide(role) => {
                if self.get(role).is_some() {
                    self.set(role, Some(Visibility::Hidden));
                }
            },
            Effect::Focus(role) => {
                match self.get(role) {
                    Some(Visibility::Shown) => self.set(role, Some(Visibility::Focused)),
                    _ => {},
                }
            },
            Effect::CreateAbout => self.about = Some(Visibility::Focused),
            Effect::SetPresence(p) => self.presence = p,
            Effect::Exit(code) => self.exit_code = Some(code),
            Effect::MoveTo(_, _, _) | Effect::Activate | Effect::PreventClose => {},
        }
    }
}

/// What one effect does to the model. Showing affects only a hidden window,
/// focusing only a shown one, hiding any live window; an absent window is
/// never touched. Moving, activating and preventing a close leave the model
/// as it is.
pub open spec fn apply_effect(s: Shell, e: Effect) -> Shell {
    match e {
        Effect::Show(role) => if s.window(role) == Some(Visibility::Hidden) {
            s.with_window(role, Some(Visibility::Shown))
        } else {
            s
        },
        Effect::Hide(role) => if s.window(role) is Some {
            s.with_window(role, Some(Visibility::Hidden))
        } else {
            s
        },
        Effect::Focus(role) => if s.window(role) == Some(Visibility::Shown) {
            s.with_window(role, Some(Visibility::Focused))
        } else {
            s
        },
        Effect::CreateAbout => Shell { about: Some(Visibility::Focused), ..s },
        Effect::SetPresence(p) => Shell { presence: p, ..s },
        Effect::Exit(code) => Shell { exit_code: Some(code), ..s },
        Effect::MoveTo(_, _, _) | Effect::Activate | Effect::PreventClose => s,
    }
}

/// The model after a list of effects, applied first to last.
pub open spec fn apply_all(s: Shell, es: Seq<Effect>) -> Shell
    decreases es.len(),
{
    if es.len() == 0 {
        s
    } else {
        apply_effect(apply_all(s, es.drop_last()), es.last())
    }
}

pub proof fn lemma_apply_push(s: Shell, es: Seq<Effect>, e: Effect)
    ensures
        apply_all(s, es.push(e)) == apply_effect(apply_all(s, es), e),
{
    assert(es.push(e).drop_last() =~= es);
}

/// Records one effect: appends it to the list and applies it to the model.
pub fn emit(shell: &mut Shell, effects: &mut Vec<Effect>, e: Effect)
    ensures
        final(effects)@ == old(effects)@.push(e),
        *final(shell) == apply_effect(*old(shell), e),
{
    shell.apply(e);
    effects.push(e);
}

/// Records one effect while keeping the model equal to a starting model
/// with every recorded effect applied.
pub(crate) fn record(Ghost(start): Ghost<Shell>, shell: &mut Shell, effects: &mut Vec<Effect>, e: Effect)
    requires
        *old(shell) == apply_all(start, old(effects)@),
    ensures
        final(effects)@ == old(effects)@.push(e),
        *final(shell) == apply_all(start, final(effects)@),
{
    proof {
        lemma_apply_push(start, effects@, e);
    }
    emit(shell, effects, e);
}

/// Applying two lists one after the other is applying their concatenation.
pub proof fn lemma_apply_concat(s: Shell, a: Seq<Effect>, b: Seq<Effect>)
    ensures
        apply_all(s, a + b) == apply_all(apply_all(s, a), b),
    decreases b.len(),
{
    if b.len() == 0 {
        assert(a + b =~= a);
    } else {
        lemma_apply_concat(s, a, b.drop_last());
        assert((a + b).drop_last() =~= a + b.drop_last());
        assert((a + b).last() == b.last());
    }
}

} // verus!

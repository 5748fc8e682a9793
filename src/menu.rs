//! The application menu bar and the tray menu, as tables of items, and the
//! dispatch of application-menu choices.
use vstd::prelude::*;
use vstd::string::*;
use crate::shell::{Effect, Shell, WindowRole, apply_all, record};
use crate::text::same_text;

verus! {

/// Width, in characters, that application-menu labels are padded to.
pub const MENU_LABEL_WIDTH: usize = 10;

/// Size of the About window, in logical pixels.
pub const ABOUT_WIDTH: u32 = 520;

pub const ABOUT_HEIGHT: u32 = 600;

/// `text` with spaces added on the right up to `min_width` characters;
/// unchanged when it is already that long.
pub open spec fn padded(text: Seq<char>, min_width: nat) -> Seq<char> {
    if text.len() < min_width {
        text + Seq::new((min_width - text.len()) as nat, |_i: int| ' ')
    } else {
        text
    }
}

/// Pads a menu label with spaces to widen the menu.
pub fn format_menu_text(text: &str, min_width: usize) -> (r: String)
    ensures
        r@ == padded(text@, min_width as nat),
{
    let current_width = text.unicode_len();
    let mut r = String::from_str(text);
    if current_width < min_width {
        let spaces = min_width - current_width;
        proof {
            reveal_strlit(" ");
        }
        let mut i: usize = 0;
        while i < spaces
            invariant
                i <= spaces,
                r@ == text@ + Seq::new(i as nat, |_k: int| ' '),
                " "@ == seq![' '],
            decreases spaces - i,
        {
            r.append(" ");
            i += 1;
            assert(r@ =~= text@ + Seq::new(i as nat, |_k: int| ' '));
        }
    } else {
        assert(r@ == text@);
    }
    r
}

/// One clickable menu item.
pub struct MenuEntry {
    pub id: String,
    pub label: String,
    pub accelerator: Option<String>,
    pub enabled: bool,
}

/// A submenu of the menu bar.
pub struct SubmenuEntry {
    pub title: String,
    pub items: Vec<MenuEntry>,
}

/// An enabled item with the given identifier, label and accelerator.
pub open spec fn entry_is(e: MenuEntry, id: Seq<char>, label: Seq<char>, accel: Seq<char>) -> bool {
    &&& e.id@ == id
    &&& e.label@ == label
    &&& e.enabled
    &&& match e.accelerator {
        Some(a) => a@ == accel,
        None => false,
    }
}

fn entry(id: &str, label: String, accel: &str) -> (r: MenuEntry)
    ensures
        entry_is(r, id@, label@, accel@),
{
    MenuEntry {
        id: String::from_str(id),
        label,
        accelerator: Some(String::from_str(accel)),
        enabled: true,
    }
}

/// The menu bar: an application submenu with no items of its own (the
/// platform names it after the application), then "File" with open, close
/// and quit, then "Help" with about.
pub fn app_menu_layout() -> (r: Vec<SubmenuEntry>)
    ensures
        r@.len() == 3,
        r@[0].title@ == ""@,
        r@[0].items@.len() == 0,
        r@[1].title@ == "文件"@,
        r@[1].items@.len() == 3,
        entry_is(r@[1].items@[0], "open"@, padded("打开窗口"@, 10), "CmdOrCtrl+O"@),
        entry_is(r@[1].items@[1], "close"@, padded("关闭窗口 "@, 10), "CmdOrCtrl+W"@),
        entry_is(r@[1].items@[2], "quit"@, padded("退出应用"@, 10), "CmdOrCtrl+Q"@),
        r@[2].title@ == "帮助"@,
        r@[2].items@.len() == 1,
        entry_is(r@[2].items@[0], "about"@, padded("关于应用"@, 10), "CmdOrCtrl+I"@),
{
    let open_item = entry("open", format_menu_text("打开窗口", MENU_LABEL_WIDTH), "CmdOrCtrl+O");
    let close_item = entry("close", format_menu_text("关闭窗口 ", MENU_LABEL_WIDTH), "CmdOrCtrl+W");
    let quit_item = entry("quit", format_menu_text("退出应用", MENU_LABEL_WIDTH), "CmdOrCtrl+Q");
    let about_item = entry("about", format_menu_text("关于应用", MENU_LABEL_WIDTH), "CmdOrCtrl+I");
    let app_submenu = SubmenuEntry { title: String::from_str(""), items: Vec::new() };
    let file_submenu = SubmenuEntry {
        title: String::from_str("文件"),
        items: vec![open_item, close_item, quit_item],
    };
    let help_submenu = SubmenuEntry { title: String::from_str("帮助"), items: vec![about_item] };
    vec![app_submenu, file_submenu, help_submenu]
}

/// The tray's own menu: reopen the Main window, or quit.
pub fn tray_menu_items() -> (r: Vec<MenuEntry>)
    ensures
        r@.len() == 2,
        entry_is(r@[0], "main"@, "主窗口"@, "CmdOrCtrl+M"@),
        entry_is(r@[1], "quit"@, "退出"@, "CmdOrCtrl+Q"@),
{
    let main_item = entry("main", String::from_str("主窗口"), "CmdOrCtrl+M");
    let quit_item = entry("quit", String::from_str("退出"), "CmdOrCtrl+Q");
    vec![main_item, quit_item]
}

/// How the About window is created when it does not exist yet.
pub struct AboutWindow {
    pub label: String,
    pub route: String,
    pub title: String,
    pub width: u32,
    pub height: u32,
    pub resizable: bool,
    pub centered: bool,
}

/// The About window: the frontend's `/about` page, fixed in size, centred.
pub fn about_window() -> (r: AboutWindow)
    ensures
        r.label@ == "about"@,
        r.route@ == "/about"@,
        r.title@ == "关于 Echo"@,
        r.width == ABOUT_WIDTH,
        r.height == ABOUT_HEIGHT,
        !r.resizable,
        r.centered,
{
    AboutWindow {
        label: String::from_str("about"),
        route: String::from_str("/about"),
        title: String::from_str("关于 Echo"),
        width: ABOUT_WIDTH,
        height: ABOUT_HEIGHT,
        resizable: false,
        centered: true,
    }
}

/// What an application-menu identifier asks for.
#[derive(Clone, Copy, Debug, PartialEq, Eq, Structural)]
pub enum AppMenuCommand {
    Open,
    Close,
    Quit,
    About,
    Unknown,
}

pub open spec fn app_command_of(id: Seq<char>) -> AppMenuCommand {
    if id == "open"@ {
        AppMenuCommand::Open
    } else if id == "close"@ {
        AppMenuCommand::Close
    } else if id == "quit"@ {
        AppMenuCommand::Quit
    } else if id == "about"@ {
        AppMenuCommand::About
    } else {
        AppMenuCommand::Unknown
    }
}

/// "open": show and focus the Main window, if there is one.
pub open spec fn open_effects(s: Shell) -> Seq<Effect> {
    if s.main is Some {
        seq![Effect::Show(WindowRole::Main), Effect::Focus(WindowRole::Main)]
    } else {
        seq![]
    }
}

/// "close": hide the Main window, if there is one; presence is unchanged.
pub open spec fn close_effects(s: Shell) -> Seq<Effect> {
    if s.main is Some {
        seq![Effect::Hide(WindowRole::Main)]
    } else {
        seq![]
    }
}

/// "about": show and focus the About window if it exists, else create it.
pub open spec fn about_effects(s: Shell) -> Seq<Effect> {
    if s.about is Some {
        seq![Effect::Show(WindowRole::About), Effect::Focus(WindowRole::About)]
    } else {
        seq![Effect::CreateAbout]
    }
}

pub open spec fn app_menu_effects(s: Shell, id: Seq<char>) -> Seq<Effect> {
    match app_command_of(id) {
        AppMenuCommand::Open => open_effects(s),
        AppMenuCommand::Close => close_effects(s),
        AppMenuCommand::Quit => seq![Effect::Exit(0)],
        AppMenuCommand::About => about_effects(s),
        AppMenuCommand::Unknown => seq![],
    }
}

/// Reads an application-menu identifier.
pub fn app_menu_command(id: &str) -> (r: AppMenuCommand)
    ensures
        r == app_command_of(id@),
{
    if same_text(id, "open") {
        AppMenuCommand::Open
    } else if same_text(id, "close") {
        AppMenuCommand::Close
    } else if same_text(id, "quit") {
        AppMenuCommand::Quit
    } else if same_text(id, "about") {
        AppMenuCommand::About
    } else {
        AppMenuCommand::Unknown
    }
}

pub fn handle_open_event(shell: &mut Shell) -> (r: Vec<Effect>)
    ensures
        r@ == open_effects(*old(shell)),
        *final(shell) == apply_all(*old(shell), r@),
{
    let ghost s0 = *shell;
    let mut effects: Vec<Effect> = Vec::new();
    if shell.get(WindowRole::Main).is_some() {
        record(Ghost(s0), shell, &mut effects, Effect::Show(WindowRole::Main));
        record(Ghost(s0), shell, &mut effects, Effect::Focus(WindowRole::Main));
    }
    assert(effects@ =~= open_effects(s0));
    effects
}

pub fn handle_close_event(shell: &mut Shell) -> (r: Vec<Effect>)
    ensures
        r@ == close_effects(*old(shell)),
        *final(shell) == apply_all(*old(shell), r@),
{
    let ghost s0 = *shell;
    let mut effects: Vec<Effect> = Vec::new();
    if shell.get(WindowRole::Main).is_some() {
        record(Ghost(s0), shell, &mut effects, Effect::Hide(WindowRole::Main));
    }
    assert(effects@ =~= close_effects(s0));
    effects
}

pub fn handle_about_event(shell: &mut Shell) -> (r: Vec<Effect>)
    ensures
        r@ == about_effects(*old(shell)),
        *final(shell) == apply_all(*old(shell), r@),
{
    let ghost s0 = *shell;
    let mut effects: Vec<Effect> = Vec::new();
    if shell.get(WindowRole::About).is_some() {
        record(Ghost(s0), shell, &mut effects, Effect::Show(WindowRole::About));
        record(Ghost(s0), shell, &mut effects, Effect::Focus(WindowRole::About));
    } else {
        record(Ghost(s0), shell, &mut effects, Effect::CreateAbout);
    }
    assert(effects@ =~= about_effects(s0));
    effects
}

/// Handles a choice in the application menu; unknown identifiers change
/// nothing.
pub fn handle_app_menu_event(shell: &mut Shell, id: &str) -> (r: Vec<Effect>)
    ensures
        r@ == app_menu_effects(*old(shell), id@),
        *final(shell) == apply_all(*old(shell), r@),
{
    match app_menu_command(id) {
        AppMenuCommand::Open => handle_open_event(shell),
        AppMenuCommand::Close => handle_close_event(shell),
        AppMenuCommand::Quit => {
            let ghost s0 = *shell;
            let mut effects: Vec<Effect> = Vec::new();
            record(Ghost(s0), shell, &mut effects, Effect::Exit(0));
            assert(effects@ =~= seq![Effect::Exit(0)]);
            effects
        },
        AppMenuCommand::About => handle_about_event(shell),
        AppMenuCommand::Unknown => Vec::new(),
    }
}

} // verus!

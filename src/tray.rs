use vstd::prelude::*;

verus! {

/// Logical name under which the host keeps the notifications window.
pub fn window_label() -> (r: String)
    ensures
        r@ == "notifications"@,
{
    "notifications".to_owned()
}

/// How the notifications window is opened when it does not exist yet.
pub struct WindowSpec {
    pub label: String,
    pub url: String,
    pub title: String,
    pub width: u32,
    pub height: u32,
    pub resizable: bool,
}

/// The notifications window: the app's index page, titled "Notifications",
/// 400 by 600, resizable.
pub fn notifications_window() -> (r: WindowSpec)
    ensures
        r.label@ == "notifications"@,
        r.url@ == "/index.html"@,
        r.title@ == "Notifications"@,
        r.width == 400,
        r.height == 600,
        r.resizable,
{
    WindowSpec {
        label: window_label(),
        url: "/index.html".to_owned(),
        title: "Notifications".to_owned(),
        width: 400,
        height: 600,
        resizable: true,
    }
}

/// Commands of the tray menu.
#[derive(PartialEq, Eq, Structural, Debug, Clone, Copy)]
pub enum MenuCommand {
    Quit,
    Unknown,
}

/// The command a menu item identifier stands for: only "quit" is known.
pub fn menu_command(id: &str) -> (r: MenuCommand)
    ensures
        r == (if id@ == "quit"@ {
            MenuCommand::Quit
        } else {
            MenuCommand::Unknown
        }),
{
    if id.to_owned() == "quit".to_owned() {
        MenuCommand::Quit
    } else {
        MenuCommand::Unknown
    }
}

/// What reaches the tray controller from the host.
#[derive(PartialEq, Eq, Structural, Debug, Clone, Copy)]
pub enum TrayEvent {
    LeftClick,
    RightClick,
    /// Any other pointer event on the icon (enter, move, double click).
    OtherPointer,
    /// The notifications window is gone: closed by the user, or its
    /// creation failed.
    WindowClosed,
    Menu(MenuCommand),
}

/// What the host is asked to do in answer to an event.
#[derive(PartialEq, Eq, Structural, Debug, Clone, Copy)]
pub enum TrayAction {
    /// Create the window described by `notifications_window`.
    CreateWindow,
    /// Show the existing window and give it focus.
    ShowAndFocus,
    /// Note the right click in the log; nothing else happens.
    LogRightClick,
    /// End the process at once with this exit code.
    Exit(i32),
    Nothing,
}

/// Whether the notifications window exists after `event`, given whether it
/// existed before.
pub open spec fn window_after(open: bool, event: TrayEvent) -> bool {
    match event {
        TrayEvent::LeftClick => true,
        TrayEvent::WindowClosed => false,
        _ => open,
    }
}

/// The action answering `event` when the window does (`open`) or does not exist.
pub open spec fn action_for(open: bool, event: TrayEvent) -> TrayAction {
    match event {
        TrayEvent::LeftClick => if open {
            TrayAction::ShowAndFocus
        } else {
            TrayAction::CreateWindow
        },
        TrayEvent::RightClick => TrayAction::LogRightClick,
        TrayEvent::Menu(MenuCommand::Quit) => TrayAction::Exit(0),
        _ => TrayAction::Nothing,
    }
}

/// Keeps at most one notifications window: a left click creates it when it
/// is absent and brings it forward when it exists.
pub struct TrayController {
    window_open: bool,
}

impl TrayController {
    pub closed spec fn window_exists(&self) -> bool {
        self.window_open
    }

    /// The controller at start, with no window.
    pub fn new() -> (r: TrayController)
        ensures
            !r.window_exists(),
    {
        TrayController { window_open: false }
    }

    pub fn has_window(&self) -> (r: bool)
        ensures
            r == self.window_exists(),
    {
        self.window_open
    }

    /// Answers one event and records its effect on the window.
    pub fn on_event(&mut self, event: TrayEvent) -> (r: TrayAction)
        ensures
            r == action_for(old(self).window_exists(), event),
            final(self).window_exists() == window_after(old(self).window_exists(), event),
    {
        match event {
            TrayEvent::LeftClick => {
                let action = if self.window_open {
                    TrayAction::ShowAndFocus
                } else {
                    TrayAction::CreateWindow
                };
                self.window_open = true;
                action
            },
            TrayEvent::RightClick => TrayAction::LogRightClick,
            TrayEvent::WindowClosed => {
                self.window_open = false;
                TrayAction::Nothing
            },
            TrayEvent::Menu(MenuCommand::Quit) => TrayAction::Exit(0),
            TrayEvent::Menu(MenuCommand::Unknown) => TrayAction::Nothing,
            TrayEvent::OtherPointer => TrayAction::Nothing,
        }
    }
}

/// Two left clicks with no close between them create the window at most
/// once: the second always shows and focuses, and from a state without a
/// window the first creates it.
pub proof fn lemma_one_window_per_click_pair(open: bool)
    ensures
        action_for(window_after(open, TrayEvent::LeftClick), TrayEvent::LeftClick)
            == TrayAction::ShowAndFocus,
        !open ==> action_for(open, TrayEvent::LeftClick) == TrayAction::CreateWindow,
        open ==> action_for(open, TrayEvent::LeftClick) == TrayAction::ShowAndFocus,
        window_after(window_after(open, TrayEvent::LeftClick), TrayEvent::LeftClick),
{
}

/// Quit ends the process with code 0 whatever the window state, and does not
/// touch that state.
pub proof fn lemma_quit_always_exits(open: bool)
    ensures
        action_for(open, TrayEvent::Menu(MenuCommand::Quit)) == TrayAction::Exit(0),
        window_after(open, TrayEvent::Menu(MenuCommand::Quit)) == open,
{
}

} // verus!
